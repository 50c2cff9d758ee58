//! The model behind the general settings page: what the page holds and how it
//! reacts to messages.
//!
//! The model touches no widget and no file. A reaction hands back what is to
//! be done; where the outcome of that work matters, the caller reports it with
//! the function that the effect names.

use vstd::prelude::*;
use vstd::string::StringExecFns;
use crate::status::PatchDescriptor;
use crate::version::VersionDiff;

verus! {

/// The two looks of the launcher.
#[derive(Clone, Copy, Debug, PartialEq, Eq, Structural)]
pub enum LauncherStyle {
    Modern,
    Classic,
}

/// What the page passes on to the page of components.
#[derive(Clone, Copy, Debug, PartialEq, Eq, Structural)]
pub enum ComponentsPageMsg {
    UpdateDownloadedWine,
    UpdateDownloadedDxvk,
}

/// What the page tells the preferences window.
#[derive(Clone, Debug, PartialEq, Eq)]
pub enum PreferencesAppMsg {
    /// The launcher state is to be worked out again.
    UpdateLauncherState,
    /// The look of the launcher has changed.
    SetLauncherStyle(LauncherStyle),
    /// The user is to be shown a message.
    Toast { title: String, description: Option<String> },
}

/// A message to the window as contracts see it.
pub enum PreferencesAppMsgModel {
    UpdateLauncherState,
    SetLauncherStyle(LauncherStyle),
    Toast { title: Seq<char>, description: Option<Seq<char>> },
}

impl View for PreferencesAppMsg {
    type V = PreferencesAppMsgModel;

    open spec fn view(&self) -> PreferencesAppMsgModel {
        match self {
            PreferencesAppMsg::UpdateLauncherState => PreferencesAppMsgModel::UpdateLauncherState,
            PreferencesAppMsg::SetLauncherStyle(style) => PreferencesAppMsgModel::SetLauncherStyle(
                *style,
            ),
            PreferencesAppMsg::Toast { title, description } => PreferencesAppMsgModel::Toast {
                title: title@,
                description: description.deep_view(),
            },
        }
    }
}

/// What the page can be told.
#[derive(Clone, Debug, PartialEq, Eq)]
pub enum GeneralAppMsg {
    /// The newest game version was fetched.
    SetGameDiff(Option<VersionDiff>),
    /// The facts about the newest patch were fetched.
    SetMainPatch(Option<PatchDescriptor>),
    UpdateDownloadedWine,
    UpdateDownloadedDxvk,
    OpenMigrateInstallation,
    OpenMainPage,
    OpenComponentsPage,
    UpdateLauncherStyle(LauncherStyle),
    /// Run a tool of the compatibility layer: the program and its arguments.
    WineOpen(Vec<String>),
    Toast { title: String, description: Option<String> },
}

/// A message to the page as contracts see it.
pub enum GeneralAppMsgModel {
    SetGameDiff(Option<VersionDiff>),
    SetMainPatch(Option<PatchDescriptor>),
    UpdateDownloadedWine,
    UpdateDownloadedDxvk,
    OpenMigrateInstallation,
    OpenMainPage,
    OpenComponentsPage,
    UpdateLauncherStyle(LauncherStyle),
    WineOpen(Seq<Seq<char>>),
    Toast { title: Seq<char>, description: Option<Seq<char>> },
}

impl View for GeneralAppMsg {
    type V = GeneralAppMsgModel;

    open spec fn view(&self) -> GeneralAppMsgModel {
        match self {
            GeneralAppMsg::SetGameDiff(diff) => GeneralAppMsgModel::SetGameDiff(*diff),
            GeneralAppMsg::SetMainPatch(patch) => GeneralAppMsgModel::SetMainPatch(*patch),
            GeneralAppMsg::UpdateDownloadedWine => GeneralAppMsgModel::UpdateDownloadedWine,
            GeneralAppMsg::UpdateDownloadedDxvk => GeneralAppMsgModel::UpdateDownloadedDxvk,
            GeneralAppMsg::OpenMigrateInstallation => GeneralAppMsgModel::OpenMigrateInstallation,
            GeneralAppMsg::OpenMainPage => GeneralAppMsgModel::OpenMainPage,
            GeneralAppMsg::OpenComponentsPage => GeneralAppMsgModel::OpenComponentsPage,
            GeneralAppMsg::UpdateLauncherStyle(style) => GeneralAppMsgModel::UpdateLauncherStyle(
                *style,
            ),
            GeneralAppMsg::WineOpen(executable) => GeneralAppMsgModel::WineOpen(
                executable.deep_view(),
            ),
            GeneralAppMsg::Toast { title, description } => GeneralAppMsgModel::Toast {
                title: title@,
                description: description.deep_view(),
            },
        }
    }
}

/// What went wrong, for the message that tells the user.
#[derive(Clone, Debug, PartialEq, Eq)]
pub enum Notice {
    /// The background picture could not be fetched.
    BackgroundDownloadFailed,
    /// A tool of the compatibility layer could not be run; `command` is the
    /// program and its arguments, with one space between them.
    WineRunFailed { command: String },
}

/// A notice as contracts see it.
pub enum NoticeModel {
    BackgroundDownloadFailed,
    WineRunFailed { command: Seq<char> },
}

impl View for Notice {
    type V = NoticeModel;

    open spec fn view(&self) -> NoticeModel {
        match self {
            Notice::BackgroundDownloadFailed => NoticeModel::BackgroundDownloadFailed,
            Notice::WineRunFailed { command } => NoticeModel::WineRunFailed { command: command@ },
        }
    }
}

/// What the caller is to do after a reaction of the page.
#[derive(Clone, Debug, PartialEq, Eq)]
pub enum GeneralAppEffect {
    /// Pass the message on to the page of components.
    Forward(ComponentsPageMsg),
    /// Show the window that moves an installation.
    ShowMigrateInstallation,
    /// Go back to the main page.
    CloseSubpage,
    /// Go to the page of components.
    PresentComponentsPage,
    /// Find out whether the background picture is kept as it is, and report it
    /// with `background_checked`.
    CheckBackground(LauncherStyle),
    /// Fetch the background picture, and report the result with
    /// `background_downloaded`.
    DownloadBackground(LauncherStyle),
    /// Store the look in the settings, if they can be read.
    SaveStyle(LauncherStyle),
    /// Run the tool, and report the result with `wine_finished`.
    RunWine(Vec<String>),
    /// Tell the user of a failure and its cause.
    Report { notice: Notice, cause: String },
    /// Send the message to the preferences window.
    Output(PreferencesAppMsg),
}

/// An effect as contracts see it.
pub enum EffectModel {
    Forward(ComponentsPageMsg),
    ShowMigrateInstallation,
    CloseSubpage,
    PresentComponentsPage,
    CheckBackground(LauncherStyle),
    DownloadBackground(LauncherStyle),
    SaveStyle(LauncherStyle),
    RunWine(Seq<Seq<char>>),
    Report { notice: NoticeModel, cause: Seq<char> },
    Output(PreferencesAppMsgModel),
}

impl View for GeneralAppEffect {
    type V = EffectModel;

    open spec fn view(&self) -> EffectModel {
        match self {
            GeneralAppEffect::Forward(message) => EffectModel::Forward(*message),
            GeneralAppEffect::ShowMigrateInstallation => EffectModel::ShowMigrateInstallation,
            GeneralAppEffect::CloseSubpage => EffectModel::CloseSubpage,
            GeneralAppEffect::PresentComponentsPage => EffectModel::PresentComponentsPage,
            GeneralAppEffect::CheckBackground(style) => EffectModel::CheckBackground(*style),
            GeneralAppEffect::DownloadBackground(style) => EffectModel::DownloadBackground(*style),
            GeneralAppEffect::SaveStyle(style) => EffectModel::SaveStyle(*style),
            GeneralAppEffect::RunWine(executable) => EffectModel::RunWine(executable.deep_view()),
            GeneralAppEffect::Report { notice, cause } => EffectModel::Report {
                notice: notice@,
                cause: cause@,
            },
            GeneralAppEffect::Output(message) => EffectModel::Output(message@),
        }
    }
}

/// The effects of a list, each as contracts see it.
pub open spec fn effect_models(effects: Seq<GeneralAppEffect>) -> Seq<EffectModel> {
    effects.map_values(|effect: GeneralAppEffect| effect@)
}

/// The words of a command, with one space between each two.
pub open spec fn spaced(words: Seq<Seq<char>>) -> Seq<char>
    decreases words.len(),
{
    if words.len() == 0 {
        Seq::empty()
    } else if words.len() == 1 {
        words[0]
    } else {
        spaced(words.drop_last()) + seq![' '] + words.last()
    }
}

/// Writes a program and its arguments as one line.
pub fn command_line(executable: &Vec<String>) -> (line: String)
    ensures
        line@ == spaced(executable.deep_view()),
{
    let ghost words = executable.deep_view();
    let mut line = String::new();
    let mut done: usize = 0;
    while done < executable.len()
        invariant
            done <= executable.len(),
            words == executable.deep_view(),
            words.len() == executable.len(),
            line@ == spaced(words.take(done as int)),
        decreases executable.len() - done,
    {
        proof {
            reveal_strlit(" ");
            assert(words.take(done + 1).drop_last() =~= words.take(done as int));
            assert(words.take(done + 1).last() == executable[done as int]@);
            assert(" "@ =~= seq![' ']);
        }
        if done > 0 {
            line.append(" ");
        }
        line.append(executable[done].as_str());
        proof {
            if done == 0 {
                assert(line@ =~= words[0]);
            }
        }
        done = done + 1;
    }
    proof {
        assert(words.take(done as int) =~= words);
    }
    line
}

/// The page as contracts see it.
pub struct GeneralAppModel {
    pub game_diff: Option<VersionDiff>,
    pub main_patch: Option<PatchDescriptor>,
    pub style: LauncherStyle,
    pub languages: Seq<Seq<char>>,
}

/// What a reaction yields: the page afterwards and what is to be done, in order.
pub struct ReactionModel {
    pub page: GeneralAppModel,
    pub effects: Seq<EffectModel>,
}

impl GeneralAppModel {
    /// The page after it has taken on `style`, and what follows from that: the
    /// look is stored, then the window is told.
    pub open spec fn adopt(self, style: LauncherStyle) -> ReactionModel {
        ReactionModel {
            page: GeneralAppModel { style, ..self },
            effects: seq![
                EffectModel::SaveStyle(style),
                EffectModel::Output(PreferencesAppMsgModel::SetLauncherStyle(style)),
            ],
        }
    }

    /// The page unchanged, with the given effects.
    pub open spec fn only(self, effects: Seq<EffectModel>) -> ReactionModel {
        ReactionModel { page: self, effects }
    }

    /// How the page reacts to a message.
    pub open spec fn react(self, message: GeneralAppMsgModel) -> ReactionModel {
        match message {
            GeneralAppMsgModel::SetGameDiff(diff) => ReactionModel {
                page: GeneralAppModel { game_diff: diff, ..self },
                effects: Seq::empty(),
            },
            GeneralAppMsgModel::SetMainPatch(patch) => ReactionModel {
                page: GeneralAppModel { main_patch: patch, ..self },
                effects: Seq::empty(),
            },
            GeneralAppMsgModel::UpdateDownloadedWine => self.only(
                seq![EffectModel::Forward(ComponentsPageMsg::UpdateDownloadedWine)],
            ),
            GeneralAppMsgModel::UpdateDownloadedDxvk => self.only(
                seq![EffectModel::Forward(ComponentsPageMsg::UpdateDownloadedDxvk)],
            ),
            GeneralAppMsgModel::OpenMigrateInstallation => self.only(
                seq![EffectModel::ShowMigrateInstallation],
            ),
            GeneralAppMsgModel::OpenMainPage => self.only(seq![EffectModel::CloseSubpage]),
            GeneralAppMsgModel::OpenComponentsPage => self.only(
                seq![EffectModel::PresentComponentsPage],
            ),
            GeneralAppMsgModel::UpdateLauncherStyle(style) => match style {
                LauncherStyle::Classic => self.only(seq![EffectModel::CheckBackground(style)]),
                LauncherStyle::Modern => self.adopt(style),
            },
            GeneralAppMsgModel::WineOpen(executable) => self.only(
                seq![EffectModel::RunWine(executable)],
            ),
            GeneralAppMsgModel::Toast { title, description } => self.only(
                seq![EffectModel::Output(PreferencesAppMsgModel::Toast { title, description })],
            ),
        }
    }

    /// How the page goes on once it is known whether the background picture is
    /// kept as it is: a kept picture is not fetched again.
    pub open spec fn on_background_checked(self, style: LauncherStyle, kept: bool) -> ReactionModel {
        if kept {
            self.adopt(style)
        } else {
            self.only(seq![EffectModel::DownloadBackground(style)])
        }
    }

    /// How the page goes on once the background picture was fetched, or was
    /// not: after a failure the look stays as it was and the user is told.
    pub open spec fn on_background_downloaded(
        self,
        style: LauncherStyle,
        failure: Option<Seq<char>>,
    ) -> ReactionModel {
        match failure {
            None => self.adopt(style),
            Some(cause) => self.only(
                seq![EffectModel::Report { notice: NoticeModel::BackgroundDownloadFailed, cause }],
            ),
        }
    }
}

/// What follows the run of a tool: nothing after a success, and after a
/// failure the user is told which command failed and why.
pub open spec fn wine_report(executable: Seq<Seq<char>>, failure: Option<Seq<char>>) -> Seq<
    EffectModel,
> {
    match failure {
        None => Seq::empty(),
        Some(cause) => seq![
            EffectModel::Report {
                notice: NoticeModel::WineRunFailed { command: spaced(executable) },
                cause,
            },
        ],
    }
}

/// The cause of a failure, if the work failed.
pub open spec fn failure_of(result: Result<(), String>) -> Option<Seq<char>> {
    match result {
        Ok(_) => None,
        Err(cause) => Some(cause@),
    }
}

/// The general settings page.
#[derive(Debug)]
pub struct GeneralApp {
    game_diff: Option<VersionDiff>,
    main_patch: Option<PatchDescriptor>,
    style: LauncherStyle,
    languages: Vec<String>,
}

impl View for GeneralApp {
    type V = GeneralAppModel;

    closed spec fn view(&self) -> GeneralAppModel {
        GeneralAppModel {
            game_diff: self.game_diff,
            main_patch: self.main_patch,
            style: self.style,
            languages: self.languages.deep_view(),
        }
    }
}

impl GeneralApp {
    /// The page as it starts: nothing is known yet of the game or of the patch.
    pub fn init(style: LauncherStyle, languages: Vec<String>) -> (page: GeneralApp)
        ensures
            page@ == (GeneralAppModel {
                game_diff: None,
                main_patch: None,
                style,
                languages: languages.deep_view(),
            }),
    {
        GeneralApp { game_diff: None, main_patch: None, style, languages }
    }

    pub fn game_diff(&self) -> (diff: Option<VersionDiff>)
        ensures
            diff == self@.game_diff,
    {
        self.game_diff
    }

    pub fn main_patch(&self) -> (patch: Option<PatchDescriptor>)
        ensures
            patch == self@.main_patch,
    {
        self.main_patch
    }

    pub fn style(&self) -> (style: LauncherStyle)
        ensures
            style == self@.style,
    {
        self.style
    }

    pub fn languages(&self) -> (languages: &Vec<String>)
        ensures
            languages.deep_view() == self@.languages,
    {
        &self.languages
    }

    /// Takes on a look: the look is stored, then the window is told.
    fn adopt(&mut self, style: LauncherStyle) -> (effects: Vec<GeneralAppEffect>)
        ensures
            final(self)@ == old(self)@.adopt(style).page,
            effect_models(effects@) == old(self)@.adopt(style).effects,
    {
        self.style = style;
        let effects = vec![
            GeneralAppEffect::SaveStyle(style),
            GeneralAppEffect::Output(PreferencesAppMsg::SetLauncherStyle(style)),
        ];
        assert(effect_models(effects@) =~= old(self)@.adopt(style).effects);
        effects
    }

    /// Reacts to a message: changes what the page holds and hands back what is
    /// to be done, in order.
    pub fn update(&mut self, message: GeneralAppMsg) -> (effects: Vec<GeneralAppEffect>)
        ensures
            final(self)@ == old(self)@.react(message@).page,
            effect_models(effects@) == old(self)@.react(message@).effects,
    {
        match message {
            GeneralAppMsg::SetGameDiff(diff) => {
                self.game_diff = diff;
                none()
            },
            GeneralAppMsg::SetMainPatch(patch) => {
                self.main_patch = patch;
                none()
            },
            GeneralAppMsg::UpdateDownloadedWine => single(
                GeneralAppEffect::Forward(ComponentsPageMsg::UpdateDownloadedWine),
            ),
            GeneralAppMsg::UpdateDownloadedDxvk => single(
                GeneralAppEffect::Forward(ComponentsPageMsg::UpdateDownloadedDxvk),
            ),
            GeneralAppMsg::OpenMigrateInstallation => single(
                GeneralAppEffect::ShowMigrateInstallation,
            ),
            GeneralAppMsg::OpenMainPage => single(GeneralAppEffect::CloseSubpage),
            GeneralAppMsg::OpenComponentsPage => single(GeneralAppEffect::PresentComponentsPage),
            GeneralAppMsg::UpdateLauncherStyle(style) => match style {
                LauncherStyle::Classic => single(GeneralAppEffect::CheckBackground(style)),
                LauncherStyle::Modern => self.adopt(style),
            },
            GeneralAppMsg::WineOpen(executable) => single(GeneralAppEffect::RunWine(executable)),
            GeneralAppMsg::Toast { title, description } => single(
                GeneralAppEffect::Output(PreferencesAppMsg::Toast { title, description }),
            ),
        }
    }

    /// Goes on with a change of look once it is known whether the background
    /// picture is kept as it is.
    pub fn background_checked(&mut self, style: LauncherStyle, kept: bool) -> (effects: Vec<
        GeneralAppEffect,
    >)
        ensures
            final(self)@ == old(self)@.on_background_checked(style, kept).page,
            effect_models(effects@) == old(self)@.on_background_checked(style, kept).effects,
    {
        if kept {
            self.adopt(style)
        } else {
            single(GeneralAppEffect::DownloadBackground(style))
        }
    }

    /// Goes on with a change of look once the background picture was fetched,
    /// or was not.
    pub fn background_downloaded(&mut self, style: LauncherStyle, result: Result<(), String>) -> (effects:
        Vec<GeneralAppEffect>)
        ensures
            final(self)@ == old(self)@.on_background_downloaded(style, failure_of(result)).page,
            effect_models(effects@) == old(self)@.on_background_downloaded(
                style,
                failure_of(result),
            ).effects,
    {
        match result {
            Ok(_) => self.adopt(style),
            Err(cause) => single(
                GeneralAppEffect::Report { notice: Notice::BackgroundDownloadFailed, cause },
            ),
        }
    }
}

/// Says what is to be done after a tool of the compatibility layer has run.
pub fn wine_finished(executable: &Vec<String>, result: Result<(), String>) -> (effects: Vec<
    GeneralAppEffect,
>)
    ensures
        effect_models(effects@) == wine_report(executable.deep_view(), failure_of(result)),
{
    match result {
        Ok(_) => none(),
        Err(cause) => single(
            GeneralAppEffect::Report {
                notice: Notice::WineRunFailed { command: command_line(executable) },
                cause,
            },
        ),
    }
}

fn none() -> (effects: Vec<GeneralAppEffect>)
    ensures
        effect_models(effects@) == Seq::<EffectModel>::empty(),
{
    let effects: Vec<GeneralAppEffect> = Vec::new();
    assert(effect_models(effects@) =~= Seq::<EffectModel>::empty());
    effects
}

fn single(effect: GeneralAppEffect) -> (effects: Vec<GeneralAppEffect>)
    ensures
        effect_models(effects@) == seq![effect@],
{
    let effects = vec![effect];
    assert(effect_models(effects@) =~= seq![effect@]);
    effects
}

} // verus!
