//! The decisions of the event loop.
//!
//! The loop itself waits, reads and draws, and so stands outside. What it does
//! in which order is decided here: the [`Pager`] names the next [`Task`], the
//! loop carries it out and hands the [`Outcome`] to [`Pager::advance`], which
//! names the task after that. One turn of the loop runs in this order:
//!
//! 1. the watch's mailbox is looked into, without waiting;
//! 2. after any change that the watch reports, a deletion too, the file is
//!    looked at, and read if it was written; a change of content is fed into
//!    the view and announced in the status line, and so is a file that is
//!    found gone, whose lines stay;
//! 3. the screen is drawn if it is stale;
//! 4. input is waited for, for a bounded time;
//! 5. what came is turned into a command and carried out: a refresh reloads
//!    the file, the help screen stays up until a command dismisses it, and
//!    quitting is seen at the top of the next turn.
//!
//! The steps are also there one by one ([`Pager::handle_file_changes`],
//! [`Pager::reload`], [`Pager::take_render`], [`Pager::handle_input`],
//! [`Pager::help_input`]). What each does to the state is written down on
//! [`PagerModel`].

use crate::error::MorelError;
use crate::file_reader::{Document, FileProbe, FileReader, ReloadResult, ReloadStep};
use crate::input::{command_of_event, prefix_after_event, Command, InputEvent, InputHandler};
use crate::render::RenderRequest;
use crate::view_state::{ViewModel, ViewOp, ViewState};
use crate::watcher::FileEvent;
use vstd::prelude::*;
use vstd::string::StringExecFns;

verus! {

/// Why a reload is made.
#[derive(Debug, Clone, Copy, PartialEq, Eq, Structural)]
pub enum ReloadCause {
    /// The watch reported a change.
    Watch,
    /// The user asked for it.
    Refresh,
}

/// What the loop has to do next.
#[derive(Debug, Clone, Copy, PartialEq, Eq, Structural)]
pub enum Action {
    /// Nothing: go on with the turn.
    Continue,
    /// Look at the file and hand what it shows to [`Pager::reload`].
    Reload,
    /// Show the help screen until a command dismisses it.
    ShowHelp,
}

/// How long the loop waits for input in an ordinary turn, in milliseconds.
pub const INPUT_WAIT_MILLIS: u64 = 50;

/// How long the loop waits for input at a time while the help screen is up, in
/// milliseconds.
pub const HELP_WAIT_MILLIS: u64 = 100;

/// One thing for the loop to do. Each task but the last ends in an
/// [`Outcome`], which the loop hands to [`Pager::advance`].
#[derive(Debug, Clone, Copy, PartialEq, Eq, Structural)]
pub enum Task {
    /// Look into the watch's mailbox without waiting, and have what was found
    /// classified. Ends in [`Outcome::Change`].
    CheckFile,
    /// Look at the file without reading it. Ends in [`Outcome::Probe`].
    ProbeFile(ReloadCause),
    /// Read the file. Ends in [`Outcome::Probe`].
    ReadFile(ReloadCause),
    /// Draw what [`Pager::render`] gives. Ends in [`Outcome::Drawn`].
    Draw,
    /// Wait for input, no longer than this many milliseconds. Ends in
    /// [`Outcome::Input`].
    WaitForInput { millis: u64 },
    /// Draw the help screen. Ends in [`Outcome::Drawn`].
    DrawHelp,
    /// Wait for input while the help screen is up, no longer than this many
    /// milliseconds. Ends in [`Outcome::Input`].
    WaitForHelpInput { millis: u64 },
    /// Leave the loop.
    Stop,
}

/// What a task ended in.
#[derive(Debug, Clone, PartialEq, Eq)]
pub enum Outcome {
    /// The classified change that the watch's mailbox held.
    Change(FileEvent),
    /// What a look at the file showed.
    Probe(FileProbe),
    /// The screen was drawn.
    Drawn,
    /// What the wait for input brought.
    Input(InputEvent),
}

/// The mathematical state of a pager.
pub struct PagerModel {
    /// The document shown.
    pub document: Document,
    /// Where the view stands.
    pub view: ViewModel,
    /// The numeric prefix typed so far.
    pub prefix: Seq<char>,
    /// The name under which the file is shown.
    pub filename: Seq<char>,
    /// Whether the loop goes on.
    pub running: bool,
    /// The message shown in place of the usual status line, if any.
    pub status: Option<Seq<char>>,
    /// The task that the loop has been given and has not yet reported on.
    pub pending: Task,
}

pub open spec fn appended_message() -> Seq<char> {
    "[File appended]"@
}

pub open spec fn truncated_message() -> Seq<char> {
    "[File truncated]"@
}

pub open spec fn modified_message() -> Seq<char> {
    "[File modified]"@
}

pub open spec fn deleted_message() -> Seq<char> {
    "[File deleted - showing last content]"@
}

pub open spec fn no_changes_message() -> Seq<char> {
    "[No changes]"@
}

pub open spec fn refreshed_message() -> Seq<char> {
    "[Refreshed]"@
}

/// The name shown for a file whose name is not known.
pub open spec fn unknown_filename() -> Seq<char> {
    "unknown"@
}

/// The operation on the view that a command stands for, if it stands for one.
pub open spec fn view_op_of(command: Command) -> Option<ViewOp> {
    match command {
        Command::ScrollDownPage => Some(ViewOp::ScrollDownPage),
        Command::ScrollDownLine => Some(ViewOp::ScrollDownLine),
        Command::ScrollUpPage => Some(ViewOp::ScrollUpPage),
        Command::ScrollUpLine => Some(ViewOp::ScrollUpLine),
        Command::JumpToLine(line) => Some(ViewOp::JumpToLine(line as nat)),
        Command::JumpToPercentage(percent) => Some(ViewOp::JumpToPercentage(percent as nat)),
        Command::JumpToStart => Some(ViewOp::JumpToStart),
        Command::JumpToEnd => Some(ViewOp::JumpToEnd),
        _ => None,
    }
}

/// What the loop has to do after a command.
pub open spec fn action_for(command: Command) -> Action {
    match command {
        Command::Refresh => Action::Reload,
        Command::Help => Action::ShowHelp,
        _ => Action::Continue,
    }
}

/// Whether a classified change of the file asks for a reload: every change
/// does, a deletion too, since the file may be there again by the time it is
/// looked at.
pub open spec fn asks_for_reload(event: FileEvent) -> bool {
    event != FileEvent::NoChange
}

/// Whether what a wait for input amounted to dismisses the help screen: any
/// command does, a failed wait or no command does not.
pub open spec fn dismisses_help(input: Result<Command, MorelError>) -> bool {
    input matches Ok(command) && command != Command::Nothing
}

impl PagerModel {
    /// The pager at its start: at the top of the document, running, with
    /// nothing typed and no message, and not yet drawn.
    pub open spec fn initial(
        document: Document,
        filename: Seq<char>,
        terminal_width: nat,
        terminal_height: nat,
    ) -> PagerModel {
        PagerModel {
            document,
            view: ViewModel::initial(terminal_width, terminal_height, document.lines.len()),
            prefix: Seq::empty(),
            filename,
            running: true,
            status: None,
            pending: Task::CheckFile,
        }
    }

    /// Whether the view counts as many lines as the document holds.
    pub open spec fn in_sync(self) -> bool {
        self.view.total_lines == self.document.lines.len()
    }

    /// This pager with `message` in the status line and the screen stale.
    pub open spec fn announcing(self, message: Seq<char>) -> PagerModel {
        PagerModel {
            status: Some(message),
            view: ViewModel { needs_redraw: true, ..self.view },
            ..self
        }
    }

    /// This pager with `message` in the status line and the view brought up to
    /// the document's number of lines.
    pub open spec fn recounted(self, message: Seq<char>) -> PagerModel {
        PagerModel {
            status: Some(message),
            view: self.view.update_total_lines(self.document.lines.len()),
            ..self
        }
    }

    /// The pager once a reload is over, the document being already what the
    /// reload made of it.
    pub open spec fn settled(self, cause: ReloadCause, result: ReloadResult) -> PagerModel {
        match cause {
            ReloadCause::Watch => match result {
                ReloadResult::NoChange => self,
                ReloadResult::Appended => self.recounted(appended_message()),
                ReloadResult::Truncated => self.recounted(truncated_message()),
                ReloadResult::Modified => self.recounted(modified_message()),
                ReloadResult::Deleted => self.announcing(deleted_message()),
            },
            ReloadCause::Refresh => match result {
                ReloadResult::NoChange => self.announcing(no_changes_message()),
                _ => self.recounted(refreshed_message()),
            },
        }
    }

    /// The pager after a look at the file was handed in. Nothing changes while
    /// the file still has to be read, nor when reading it failed.
    pub open spec fn after_reload(self, probe: FileProbe, cause: ReloadCause) -> PagerModel {
        match self.document.reload_answer(probe) {
            Ok(ReloadStep::Finished(result)) => (PagerModel {
                document: self.document.after_reload(probe),
                ..self
            }).settled(cause, result),
            _ => self,
        }
    }

    /// The pager after a command. A command that moves the view also takes the
    /// message away; quitting only stops the loop; a refresh and the help screen
    /// are left to the loop, and change nothing here.
    pub open spec fn after_command(self, command: Command) -> PagerModel {
        match view_op_of(command) {
            Some(op) => PagerModel { status: None, view: self.view.apply(op), ..self },
            None => if command == Command::Quit {
                PagerModel { running: false, ..self }
            } else {
                self
            },
        }
    }

    /// The pager after the screen was drawn.
    pub open spec fn after_render(self) -> PagerModel {
        PagerModel { view: self.view.redrawn(), ..self }
    }

    /// The pager after one bounded wait for input: the input is turned into a
    /// command, which moves the numeric prefix on, and the command is carried
    /// out. A wait that failed changes nothing.
    pub open spec fn after_input(self, event: InputEvent) -> PagerModel {
        match command_of_event(self.prefix, event) {
            Ok(command) => (PagerModel {
                prefix: prefix_after_event(self.prefix, event),
                ..self
            }).after_command(command),
            Err(_) => self,
        }
    }

    /// The pager after one bounded wait for input while the help screen is up:
    /// the input moves the numeric prefix on as ever, and input that dismisses
    /// the help screen makes the screen stale. Nothing else changes.
    pub open spec fn after_help_input(self, event: InputEvent) -> PagerModel {
        PagerModel {
            prefix: prefix_after_event(self.prefix, event),
            view: if dismisses_help(command_of_event(self.prefix, event)) {
                ViewModel { needs_redraw: true, ..self.view }
            } else {
                self.view
            },
            ..self
        }
    }

    /// The task at the top of a turn: the mailbox of the watch while the pager
    /// runs, and the way out once it has been told to quit.
    pub open spec fn top_task(self) -> Task {
        if self.running {
            Task::CheckFile
        } else {
            Task::Stop
        }
    }

    /// The task once the file has been seen to in a turn: the screen is drawn
    /// if it is stale, and input is waited for if it is not.
    pub open spec fn draw_or_wait(self) -> Task {
        if self.view.needs_redraw {
            Task::Draw
        } else {
            Task::WaitForInput { millis: INPUT_WAIT_MILLIS }
        }
    }

    /// This pager with `task` given to the loop.
    pub open spec fn given(self, task: Task) -> PagerModel {
        PagerModel { pending: task, ..self }
    }

    /// The pager after the loop reported `outcome`. An outcome that does not
    /// belong to the pending task changes nothing, and neither does a look at
    /// the file or a wait for input that failed.
    pub open spec fn after_outcome(self, outcome: Outcome) -> PagerModel {
        match outcome {
            Outcome::Change(event) => match self.pending {
                Task::CheckFile => if asks_for_reload(event) {
                    self.given(Task::ProbeFile(ReloadCause::Watch))
                } else {
                    self.given(self.draw_or_wait())
                },
                _ => self,
            },
            Outcome::Probe(probe) => match self.pending {
                Task::ProbeFile(cause) => self.after_probe(probe, cause),
                Task::ReadFile(cause) => self.after_probe(probe, cause),
                _ => self,
            },
            Outcome::Drawn => match self.pending {
                Task::Draw => self.after_render().given(
                    Task::WaitForInput { millis: INPUT_WAIT_MILLIS },
                ),
                Task::DrawHelp => self.given(Task::WaitForHelpInput { millis: HELP_WAIT_MILLIS }),
                _ => self,
            },
            Outcome::Input(event) => match self.pending {
                Task::WaitForInput { .. } => match command_of_event(self.prefix, event) {
                    Ok(command) => {
                        let next = self.after_input(event);
                        next.given(
                            match action_for(command) {
                                Action::Continue => next.top_task(),
                                Action::Reload => Task::ProbeFile(ReloadCause::Refresh),
                                Action::ShowHelp => Task::DrawHelp,
                            },
                        )
                    },
                    Err(_) => self,
                },
                Task::WaitForHelpInput { .. } => {
                    let next = self.after_help_input(event);
                    if dismisses_help(command_of_event(self.prefix, event)) {
                        next.given(next.top_task())
                    } else {
                        next
                    }
                },
                _ => self,
            },
        }
    }

    /// The pager after a look at the file was reported in the course of a
    /// reload made for `cause`. While the file has to be read, reading it is
    /// the next task. Once the reload is over, a reload that the watch set off
    /// is followed by the rest of the turn, and a refresh by the next turn.
    pub open spec fn after_probe(self, probe: FileProbe, cause: ReloadCause) -> PagerModel {
        match self.document.reload_answer(probe) {
            Ok(ReloadStep::ReadContent) => self.given(Task::ReadFile(cause)),
            Ok(ReloadStep::Finished(_)) => {
                let next = self.after_reload(probe, cause);
                next.given(
                    match cause {
                        ReloadCause::Watch => next.draw_or_wait(),
                        ReloadCause::Refresh => next.top_task(),
                    },
                )
            },
            Err(_) => self,
        }
    }

    /// The pager after the loop reported a run of outcomes, one after the
    /// other.
    pub open spec fn after_outcomes(self, outcomes: Seq<Outcome>) -> PagerModel
        decreases outcomes.len(),
    {
        if outcomes.len() == 0 {
            self
        } else {
            self.after_outcomes(outcomes.drop_last()).after_outcome(outcomes.last())
        }
    }

    /// What [`Pager::advance`] answers to `outcome`: the task that is pending
    /// from then on, or the error of a look at the file or of a wait for input
    /// that failed while the pager was waiting for it.
    pub open spec fn answer_to(self, outcome: Outcome) -> Result<Task, MorelError> {
        match outcome {
            Outcome::Probe(probe) if (self.pending is ProbeFile || self.pending is ReadFile)
                && self.document.reload_answer(probe) is Err => Err(
                self.document.reload_answer(probe)->Err_0,
            ),
            Outcome::Input(event) if self.pending is WaitForInput && command_of_event(
                self.prefix,
                event,
            ) is Err => Err(command_of_event(self.prefix, event)->Err_0),
            _ => Ok(self.after_outcome(outcome).pending),
        }
    }
}

/// The state that the event loop turns on. It is changed through its methods
/// alone, so the view and the document of a pager cannot be set apart from
/// outside.
pub struct Pager {
    file_reader: FileReader,
    view_state: ViewState,
    input_handler: InputHandler,
    filename: String,
    running: bool,
    status_message: Option<String>,
    pending: Task,
}

impl View for Pager {
    type V = PagerModel;

    closed spec fn view(&self) -> PagerModel {
        PagerModel {
            document: self.file_reader@,
            view: self.view_state@,
            prefix: self.input_handler@,
            filename: self.filename@,
            running: self.running,
            status: match self.status_message {
                Some(message) => Some(message@),
                None => None,
            },
            pending: self.pending,
        }
    }
}

impl Pager {
    /// A pager over the document in `file_reader`, on a terminal of the given
    /// size. A file without a name is shown as `unknown`.
    pub fn new(file_reader: FileReader, filename: Option<String>, width: u16, height: u16) -> (pager:
        Self)
        ensures
            pager@ == PagerModel::initial(
                file_reader@,
                match filename {
                    Some(name) => name@,
                    None => unknown_filename(),
                },
                width as nat,
                height as nat,
            ),
            pager@.in_sync(),
            pager@.view.in_range(),
    {
        let view_state = ViewState::new(width, height, file_reader.total_lines());
        let filename = match filename {
            Some(name) => name,
            None => String::from_str("unknown"),
        };
        Self {
            file_reader,
            view_state,
            input_handler: InputHandler::new(),
            filename,
            running: true,
            status_message: None,
            pending: Task::CheckFile,
        }
    }

    /// The document store.
    pub fn file_reader(&self) -> (reader: &FileReader)
        ensures
            reader@ == self@.document,
    {
        &self.file_reader
    }

    /// Where the view stands.
    pub fn view_state(&self) -> (view: &ViewState)
        ensures
            view@ == self@.view,
    {
        &self.view_state
    }

    /// The message shown in place of the usual status line, if there is one.
    pub fn status_message(&self) -> (status: Option<&str>)
        ensures
            match status {
                Some(message) => self@.status == Some(message@),
                None => self@.status is None,
            },
    {
        match &self.status_message {
            Some(message) => Some(message.as_str()),
            None => None,
        }
    }

    /// Whether the loop goes on.
    pub fn is_running(&self) -> (running: bool)
        ensures
            running == self@.running,
    {
        self.running
    }

    /// Says what a classified change of the file asks for: a reload after
    /// every change, a deletion too, and nothing after no change. The pager
    /// itself stays as it is until the reload; it is the reload that finds the
    /// file gone, written or as it was, and announces what it found.
    pub fn handle_file_changes(&self, event: FileEvent) -> (action: Action)
        ensures
            action == if asks_for_reload(event) {
                Action::Reload
            } else {
                Action::Continue
            },
    {
        match event {
            FileEvent::Modified => Action::Reload,
            FileEvent::Created => Action::Reload,
            FileEvent::Deleted => Action::Reload,
            FileEvent::NoChange => Action::Continue,
        }
    }

    /// Takes in what a look at the file showed, for a reload made for `cause`.
    ///
    /// The document store decides what the look amounts to. While it asks for
    /// the file to be read, and when reading failed, the pager stays as it is.
    /// Once the reload is over, the view takes over the document's number of
    /// lines if the content changed, and the status line says what happened.
    pub fn reload(&mut self, probe: FileProbe, cause: ReloadCause) -> (result: Result<
        ReloadStep,
        MorelError,
    >)
        ensures
            result == old(self)@.document.reload_answer(probe),
            final(self)@ == old(self)@.after_reload(probe, cause),
            old(self)@.in_sync() ==> final(self)@.in_sync(),
            (result matches Ok(ReloadStep::Finished(change)) && change != ReloadResult::NoChange
                && change != ReloadResult::Deleted) ==> final(self)@.in_sync(),
    {
        let step = self.file_reader.reload(probe)?;
        match step {
            ReloadStep::ReadContent => {},
            ReloadStep::Finished(change) => {
                match cause {
                    ReloadCause::Watch => match change {
                        ReloadResult::NoChange => {},
                        ReloadResult::Appended => {
                            self.recount(String::from_str("[File appended]"));
                        },
                        ReloadResult::Truncated => {
                            self.recount(String::from_str("[File truncated]"));
                        },
                        ReloadResult::Modified => {
                            self.recount(String::from_str("[File modified]"));
                        },
                        ReloadResult::Deleted => {
                            self.announce(String::from_str("[File deleted - showing last content]"));
                        },
                    },
                    ReloadCause::Refresh => match change {
                        ReloadResult::NoChange => {
                            self.announce(String::from_str("[No changes]"));
                        },
                        _ => {
                            self.recount(String::from_str("[Refreshed]"));
                        },
                    },
                }
            },
        }
        Ok(step)
    }

    /// Puts `message` in the status line and asks for the screen to be drawn.
    fn announce(&mut self, message: String)
        ensures
            final(self)@ == old(self)@.announcing(message@),
    {
        self.status_message = Some(message);
        self.view_state.request_redraw();
    }

    /// Puts `message` in the status line and brings the view up to the
    /// document's number of lines.
    fn recount(&mut self, message: String)
        ensures
            final(self)@ == old(self)@.recounted(message@),
    {
        self.status_message = Some(message);
        self.view_state.update_total_lines(self.file_reader.total_lines());
    }

    /// Carries out a command, and says what is left for the loop to do: a
    /// reload after `Refresh`, the help screen after `Help`, nothing otherwise.
    pub fn handle_command(&mut self, command: Command) -> (action: Action)
        ensures
            final(self)@ == old(self)@.after_command(command),
            action == action_for(command),
            final(self)@.view.in_range(),
            final(self)@.document == old(self)@.document,
    {
        proof {
            use_type_invariant(&self.view_state);
        }
        match command {
            Command::Quit => {
                self.running = false;
                Action::Continue
            },
            Command::ScrollDownPage => {
                self.status_message = None;
                self.view_state.scroll_down_page();
                Action::Continue
            },
            Command::ScrollDownLine => {
                self.status_message = None;
                self.view_state.scroll_down_line();
                Action::Continue
            },
            Command::ScrollUpPage => {
                self.status_message = None;
                self.view_state.scroll_up_page();
                Action::Continue
            },
            Command::ScrollUpLine => {
                self.status_message = None;
                self.view_state.scroll_up_line();
                Action::Continue
            },
            Command::JumpToLine(line) => {
                self.status_message = None;
                self.view_state.jump_to_line(line);
                Action::Continue
            },
            Command::JumpToPercentage(percent) => {
                self.status_message = None;
                self.view_state.jump_to_percentage(percent);
                Action::Continue
            },
            Command::JumpToStart => {
                self.status_message = None;
                self.view_state.jump_to_start();
                Action::Continue
            },
            Command::JumpToEnd => {
                self.status_message = None;
                self.view_state.jump_to_end();
                Action::Continue
            },
            Command::Refresh => {
                Action::Reload
            },
            Command::Help => {
                Action::ShowHelp
            },
            Command::Nothing => {
                Action::Continue
            },
        }
    }

    /// What is to be drawn: the lines in the viewport, cut down to those that
    /// the document holds, where the view stands, the file's name and the
    /// message, if there is one.
    pub fn render(&self) -> (request: RenderRequest<'_>)
        ensures
            request.lines.deep_view() == self@.document.window(
                self@.view.top_line,
                self@.view.height,
            ),
            request.width == self@.view.width,
            request.height == self@.view.height,
            request.top_line == self@.view.top_line,
            request.total_lines == self@.document.lines.len(),
            request.percentage == self@.view.percentage(),
            request.filename@ == self@.filename,
            match request.status_message {
                Some(message) => self@.status == Some(message@),
                None => self@.status is None,
            },
    {
        let (start, count) = self.view_state.get_visible_range();
        RenderRequest {
            lines: self.file_reader.get_lines(start, count),
            width: self.view_state.terminal_width(),
            height: self.view_state.viewport_height(),
            top_line: start,
            total_lines: self.file_reader.total_lines(),
            percentage: self.view_state.get_percentage(),
            filename: self.filename.as_str(),
            status_message: match &self.status_message {
                Some(message) => Some(message.as_str()),
                None => None,
            },
        }
    }

    /// Whether the screen has to be drawn in this turn; if so, the screen counts
    /// as drawn from here on, and [`Pager::render`] says what to draw.
    pub fn take_render(&mut self) -> (due: bool)
        ensures
            due == old(self)@.view.needs_redraw,
            final(self)@ == old(self)@.after_render(),
    {
        let due = self.view_state.needs_redraw();
        self.view_state.mark_redrawn();
        due
    }

    /// Takes in what one bounded wait for input brought: turns it into a command
    /// and carries the command out. The answer is what is left for the loop to
    /// do, or the error of a wait that failed.
    pub fn handle_input(&mut self, event: InputEvent) -> (result: Result<Action, MorelError>)
        ensures
            final(self)@ == old(self)@.after_input(event),
            result == match command_of_event(old(self)@.prefix, event) {
                Ok(command) => Ok::<Action, MorelError>(action_for(command)),
                Err(error) => Err::<Action, MorelError>(error),
            },
            final(self)@.view.in_range(),
            final(self)@.document == old(self)@.document,
    {
        proof {
            use_type_invariant(&self.view_state);
        }
        let command = self.input_handler.read_command(event)?;
        Ok(self.handle_command(command))
    }

    /// Takes in what one bounded wait for input brought while the help screen is
    /// up, and says whether the help screen is over. It is over after any
    /// command; the screen is then stale. The command itself is not carried
    /// out, and a wait that failed is passed over.
    pub fn help_input(&mut self, event: InputEvent) -> (dismissed: bool)
        ensures
            dismissed == dismisses_help(command_of_event(old(self)@.prefix, event)),
            final(self)@ == old(self)@.after_help_input(event),
    {
        let dismissed = match self.input_handler.read_command(event) {
            Ok(command) => match command {
                Command::Nothing => false,
                _ => true,
            },
            Err(_) => false,
        };
        if dismissed {
            self.view_state.request_redraw();
        }
        dismissed
    }

    /// The task that the loop has been given and has not yet reported on. For
    /// a new pager this is the first task of the first turn.
    pub fn pending(&self) -> (task: Task)
        ensures
            task == self@.pending,
    {
        self.pending
    }

    /// Takes in what the pending task ended in, and names the next task.
    ///
    /// The order of a turn is decided here: the watch, then the file if the
    /// watch asks for it, then the screen if it is stale, then input, then the
    /// command. Quitting is seen at the top of the next turn. A look at the
    /// file or a wait for input that failed is handed back as an error, with
    /// the pager as it was. An outcome that the pending task cannot end in is
    /// passed over.
    pub fn advance(&mut self, outcome: Outcome) -> (result: Result<Task, MorelError>)
        ensures
            final(self)@ == old(self)@.after_outcome(outcome),
            result == old(self)@.answer_to(outcome),
            result matches Ok(task) ==> final(self)@.pending == task,
            result is Err ==> final(self)@ == old(self)@,
            old(self)@.in_sync() ==> final(self)@.in_sync(),
            final(self)@.view.in_range(),
    {
        proof {
            use_type_invariant(&self.view_state);
        }
        match outcome {
            Outcome::Change(event) => match self.pending {
                Task::CheckFile => {
                    let action = self.handle_file_changes(event);
                    let next = match action {
                        Action::Reload => Task::ProbeFile(ReloadCause::Watch),
                        _ => self.draw_or_wait(),
                    };
                    self.pending = next;
                    Ok(next)
                },
                _ => Ok(self.pending),
            },
            Outcome::Probe(probe) => match self.pending {
                Task::ProbeFile(cause) => self.advance_reload(probe, cause),
                Task::ReadFile(cause) => self.advance_reload(probe, cause),
                _ => Ok(self.pending),
            },
            Outcome::Drawn => match self.pending {
                Task::Draw => {
                    self.view_state.mark_redrawn();
                    let next = Task::WaitForInput { millis: INPUT_WAIT_MILLIS };
                    self.pending = next;
                    Ok(next)
                },
                Task::DrawHelp => {
                    let next = Task::WaitForHelpInput { millis: HELP_WAIT_MILLIS };
                    self.pending = next;
                    Ok(next)
                },
                _ => Ok(self.pending),
            },
            Outcome::Input(event) => match self.pending {
                Task::WaitForInput { .. } => {
                    let action = self.handle_input(event)?;
                    let next = match action {
                        Action::Continue => self.top_task(),
                        Action::Reload => Task::ProbeFile(ReloadCause::Refresh),
                        Action::ShowHelp => Task::DrawHelp,
                    };
                    self.pending = next;
                    Ok(next)
                },
                Task::WaitForHelpInput { .. } => {
                    if self.help_input(event) {
                        let next = self.top_task();
                        self.pending = next;
                    }
                    Ok(self.pending)
                },
                _ => Ok(self.pending),
            },
        }
    }

    /// Takes in a look at the file in the course of a reload, and names the
    /// next task.
    fn advance_reload(&mut self, probe: FileProbe, cause: ReloadCause) -> (result: Result<
        Task,
        MorelError,
    >)
        ensures
            final(self)@ == old(self)@.after_probe(probe, cause),
            result == match old(self)@.document.reload_answer(probe) {
                Ok(_) => Ok::<Task, MorelError>(final(self)@.pending),
                Err(error) => Err::<Task, MorelError>(error),
            },
            old(self)@.in_sync() ==> final(self)@.in_sync(),
            final(self)@.view.in_range(),
    {
        proof {
            use_type_invariant(&self.view_state);
        }
        let step = self.reload(probe, cause)?;
        let next = match step {
            ReloadStep::ReadContent => Task::ReadFile(cause),
            ReloadStep::Finished(_) => match cause {
                ReloadCause::Watch => self.draw_or_wait(),
                ReloadCause::Refresh => self.top_task(),
            },
        };
        self.pending = next;
        proof {
            use_type_invariant(&self.view_state);
        }
        Ok(next)
    }

    /// The task at the top of a turn.
    fn top_task(&self) -> (task: Task)
        ensures
            task == self@.top_task(),
    {
        if self.running {
            Task::CheckFile
        } else {
            Task::Stop
        }
    }

    /// The task once the file has been seen to in a turn.
    fn draw_or_wait(&self) -> (task: Task)
        ensures
            task == self@.draw_or_wait(),
    {
        if self.view_state.needs_redraw() {
            Task::Draw
        } else {
            Task::WaitForInput { millis: INPUT_WAIT_MILLIS }
        }
    }
}

/// Through every step of the loop the view counts as many lines as the
/// document holds: what is fed into the view after a reload is the document's
/// own count.
pub proof fn lemma_view_follows_document(
    pager: PagerModel,
    probe: FileProbe,
    cause: ReloadCause,
    command: Command,
    input: InputEvent,
)
    requires
        pager.in_sync(),
    ensures
        pager.after_reload(probe, cause).in_sync(),
        pager.after_command(command).in_sync(),
        pager.after_render().in_sync(),
        pager.after_input(input).in_sync(),
        pager.after_help_input(input).in_sync(),
{
}

/// Through every step of the loop the top line stays in range.
pub proof fn lemma_steps_keep_top_line_in_range(
    pager: PagerModel,
    probe: FileProbe,
    cause: ReloadCause,
    command: Command,
    input: InputEvent,
)
    requires
        pager.view.in_range(),
    ensures
        pager.after_reload(probe, cause).view.in_range(),
        pager.after_command(command).view.in_range(),
        pager.after_render().view.in_range(),
        pager.after_input(input).view.in_range(),
        pager.after_help_input(input).view.in_range(),
{
}

/// Whatever the loop reports, the view goes on counting as many lines as the
/// document holds, and the top line stays in range.
pub proof fn lemma_outcome_keeps_view_and_document_together(pager: PagerModel, outcome: Outcome)
    ensures
        pager.in_sync() ==> pager.after_outcome(outcome).in_sync(),
        pager.view.in_range() ==> pager.after_outcome(outcome).view.in_range(),
{
}

/// However long the loop runs and whatever happens to the file meanwhile, the
/// view counts the lines that the document holds and its top line is in range.
pub proof fn lemma_run_keeps_view_and_document_together(pager: PagerModel, outcomes: Seq<Outcome>)
    requires
        pager.in_sync(),
        pager.view.in_range(),
    ensures
        pager.after_outcomes(outcomes).in_sync(),
        pager.after_outcomes(outcomes).view.in_range(),
    decreases outcomes.len(),
{
    if outcomes.len() > 0 {
        lemma_run_keeps_view_and_document_together(pager, outcomes.drop_last());
        lemma_outcome_keeps_view_and_document_together(
            pager.after_outcomes(outcomes.drop_last()),
            outcomes.last(),
        );
    }
}

/// Every change that the watch reports, a deletion too, is followed by a look
/// at the file, and nothing is announced before that look; no change is
/// followed by the rest of the turn.
pub proof fn lemma_every_change_is_followed_by_a_look_at_the_file(pager: PagerModel, event: FileEvent)
    requires
        pager.pending == Task::CheckFile,
    ensures
        event != FileEvent::NoChange ==> pager.after_outcome(Outcome::Change(event)) == pager.given(
            Task::ProbeFile(ReloadCause::Watch),
        ),
        event == FileEvent::NoChange ==> pager.after_outcome(Outcome::Change(event)) == pager.given(
            pager.draw_or_wait(),
        ),
{
}

/// A look that finds the file gone, after whatever change the watch reported,
/// announces it and asks for the screen to be drawn in the same turn; the
/// lines, their number and the top line stay as they were.
pub proof fn lemma_file_found_gone_is_announced_with_its_lines_kept(
    pager: PagerModel,
    probe: FileProbe,
)
    requires
        pager.pending == Task::ProbeFile(ReloadCause::Watch) || pager.pending == Task::ReadFile(
            ReloadCause::Watch,
        ),
        probe.file_gone(),
    ensures
        pager.after_outcome(Outcome::Probe(probe)).status == Some(deleted_message()),
        pager.after_outcome(Outcome::Probe(probe)).view.needs_redraw,
        pager.after_outcome(Outcome::Probe(probe)).pending == Task::Draw,
        pager.after_outcome(Outcome::Probe(probe)).document == pager.document,
        pager.after_outcome(Outcome::Probe(probe)).view.top_line == pager.view.top_line,
        pager.after_outcome(Outcome::Probe(probe)).view.total_lines == pager.view.total_lines,
        pager.answer_to(Outcome::Probe(probe)) == Ok::<Task, MorelError>(Task::Draw),
{
}

/// The loop is sent away only once the pager has been told to quit, and a
/// pager that has been told to quit sends the loop away at the top of the
/// next turn, before the watch is looked at again.
pub proof fn lemma_quit_is_seen_at_the_top_of_a_turn(pager: PagerModel, outcome: Outcome)
    ensures
        pager.pending != Task::Stop && pager.after_outcome(outcome).pending == Task::Stop
            ==> !pager.after_outcome(outcome).running,
        pager.pending != Task::CheckFile && pager.after_outcome(outcome).pending == Task::CheckFile
            ==> pager.after_outcome(outcome).running,
        pager.pending == Task::Stop ==> pager.after_outcome(outcome) == pager,
{
}

/// Input is not waited for while there is something to draw: when the pager
/// sends the loop to wait for input in an ordinary turn, the screen is not
/// stale.
pub proof fn lemma_drawn_before_waiting(pager: PagerModel, outcome: Outcome)
    ensures
        !(pager.pending is WaitForInput) && pager.after_outcome(outcome).pending is WaitForInput
            ==> !pager.after_outcome(outcome).view.needs_redraw,
{
}

/// No wait is unbounded: a wait that the pager newly asks for is one of 50
/// milliseconds in an ordinary turn and one of 100 milliseconds while the help
/// screen is up.
pub proof fn lemma_waits_are_bounded(pager: PagerModel, outcome: Outcome)
    ensures
        pager.after_outcome(outcome).pending != pager.pending ==> match pager.after_outcome(
            outcome,
        ).pending {
            Task::WaitForInput { millis } => millis == 50,
            Task::WaitForHelpInput { millis } => millis == 100,
            _ => true,
        },
{
}

/// The help screen goes away on a command and on nothing else, and the command
/// that dismisses it is not carried out: the view, the document and the
/// running flag are what they were, but for the screen being stale.
pub proof fn lemma_help_screen_only_waits(pager: PagerModel, event: InputEvent)
    requires
        pager.pending is WaitForHelpInput,
    ensures
        pager.after_outcome(Outcome::Input(event)).pending is WaitForHelpInput <==> !dismisses_help(
            command_of_event(pager.prefix, event),
        ),
        pager.after_outcome(Outcome::Input(event)).view.top_line == pager.view.top_line,
        pager.after_outcome(Outcome::Input(event)).document == pager.document,
        pager.after_outcome(Outcome::Input(event)).running == pager.running,
        pager.after_outcome(Outcome::Input(event)).status == pager.status,
        dismisses_help(command_of_event(pager.prefix, event)) ==> pager.after_outcome(
            Outcome::Input(event),
        ).view.needs_redraw,
{
}

/// A file that is gone, and a file that was not written, leave on screen what
/// was there: the document and the top line stay, and only a reload that names
/// a change of content replaces the lines.
pub proof fn lemma_display_continuity(pager: PagerModel, probe: FileProbe, cause: ReloadCause)
    requires
        pager.in_sync(),
        pager.view.in_range(),
        !(pager.document.reload_answer(probe) matches Ok(ReloadStep::Finished(change)) && change
            != ReloadResult::NoChange && change != ReloadResult::Deleted),
    ensures
        pager.after_reload(probe, cause).document == pager.document,
        pager.after_reload(probe, cause).view.top_line == pager.view.top_line,
        pager.after_reload(probe, cause).view.total_lines == pager.view.total_lines,
{
}

} // verus!
