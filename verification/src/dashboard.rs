//! The dashboard's state machine: a task list with a selection, three
//! input modes (normal, help, command entry), and an explicit
//! input-to-transition function. The terminal loop around it only draws
//! this state and feeds key presses in.

use vstd::prelude::*;
use vstd::string::*;

use crate::cli::TaskFilter;
use crate::error::{spec_render, CliError};
use crate::model::Task;
use crate::text::{pop_char, push_char, spec_decimal, spec_find, str_eq, u64_to_dec};

verus! {

/// The keys the dashboard reacts to; anything else is `Other`.
#[derive(Debug, Clone, Copy, PartialEq, Eq, Structural)]
pub enum Key {
    Esc,
    Enter,
    Backspace,
    Char(char),
    Down,
    Up,
    Home,
    End,
    Other,
}

/// One key press with its modifier state.
#[derive(Debug, Clone, Copy, PartialEq, Eq, Structural)]
pub struct KeyPress {
    pub key: Key,
    pub ctrl: bool,
    pub alt: bool,
}

/// What the loop around the dashboard must do after a key press.
#[derive(Debug, Clone, Copy, PartialEq, Eq, Structural)]
pub enum AppAction {
    Idle,
    Quit,
    Refresh,
}

pub const DASHBOARD_HINT: &'static str =
    "j/k move  g/G jump  r refresh  ? help  :q/Esc/Ctrl+C quit";

/// The dashboard state.
#[derive(Debug)]
pub struct DashboardApp {
    pub tasks: Vec<Task>,
    pub filter: TaskFilter,
    pub selected: Option<usize>,
    pub show_help: bool,
    pub command_buffer: String,
    pub status_message: Option<String>,
}

/// The mathematical view of the dashboard state.
#[verifier::ext_equal]
pub struct AppModel {
    pub tasks: Seq<Task>,
    pub filter: TaskFilter,
    pub selected: Option<usize>,
    pub show_help: bool,
    pub command_buffer: Seq<char>,
    pub status_message: Option<Seq<char>>,
}

impl View for DashboardApp {
    type V = AppModel;

    open spec fn view(&self) -> AppModel {
        AppModel {
            tasks: self.tasks@,
            filter: self.filter,
            selected: self.selected,
            show_help: self.show_help,
            command_buffer: self.command_buffer@,
            status_message: crate::text::opt_view(self.status_message),
        }
    }
}

/// Esc quits; so does Ctrl+C.
pub open spec fn spec_is_quit_key(key: KeyPress) -> bool {
    key.key is Esc || (key.ctrl && (key.key == Key::Char('c') || key.key == Key::Char('C')))
}

pub fn is_quit_key(key: KeyPress) -> (r: bool)
    ensures
        r == spec_is_quit_key(key),
{
    match key.key {
        Key::Esc => true,
        Key::Char(c) => key.ctrl && (c == 'c' || c == 'C'),
        _ => false,
    }
}

pub open spec fn spec_next_selection(selected: Option<usize>, len: int) -> Option<usize> {
    if len == 0 {
        None
    } else {
        match selected {
            Some(i) => if i + 1 < len {
                Some((i + 1) as usize)
            } else {
                Some(0usize)
            },
            None => Some(0usize),
        }
    }
}

pub open spec fn spec_previous_selection(selected: Option<usize>, len: int) -> Option<usize> {
    if len == 0 {
        None
    } else {
        match selected {
            Some(i) => if i == 0 {
                Some((len - 1) as usize)
            } else {
                Some((i - 1) as usize)
            },
            None => Some((len - 1) as usize),
        }
    }
}

pub open spec fn spec_refreshed_message(count: nat) -> Seq<char> {
    "Refreshed: "@ + spec_decimal(count) + " task"@ + (if count == 1 {
        Seq::<char>::empty()
    } else {
        "s"@
    }) + " loaded."@
}

/// The command-mode transition: Enter runs the buffer (`:q` quits, `:`
/// cancels, anything else is reported unknown), Backspace erases, and a
/// plain character extends the buffer, quitting as soon as it spells `:q`.
pub open spec fn spec_handle_command_key(m: AppModel, key: KeyPress) -> (AppModel, AppAction) {
    match key.key {
        Key::Enter => {
            if m.command_buffer == ":q"@ {
                (AppModel { command_buffer: Seq::empty(), ..m }, AppAction::Quit)
            } else if m.command_buffer == ":"@ {
                (
                    AppModel {
                        command_buffer: Seq::empty(),
                        status_message: Some("Command cancelled."@),
                        ..m
                    },
                    AppAction::Idle,
                )
            } else {
                (
                    AppModel {
                        command_buffer: Seq::empty(),
                        status_message: Some("Unknown command: "@ + m.command_buffer),
                        ..m
                    },
                    AppAction::Idle,
                )
            }
        },
        Key::Backspace => {
            let shorter = if m.command_buffer.len() > 0 {
                m.command_buffer.drop_last()
            } else {
                m.command_buffer
            };
            if shorter.len() == 0 {
                (
                    AppModel {
                        command_buffer: shorter,
                        status_message: Some(DASHBOARD_HINT@),
                        ..m
                    },
                    AppAction::Idle,
                )
            } else {
                (AppModel { command_buffer: shorter, ..m }, AppAction::Idle)
            }
        },
        Key::Char(c) => {
            if !key.ctrl && !key.alt {
                let longer = m.command_buffer.push(c);
                if longer == ":q"@ {
                    (AppModel { command_buffer: longer, ..m }, AppAction::Quit)
                } else {
                    (AppModel { command_buffer: longer, ..m }, AppAction::Idle)
                }
            } else {
                (m, AppAction::Idle)
            }
        },
        _ => (m, AppAction::Idle),
    }
}

/// The full input-to-transition table: quit keys always quit; a non-empty
/// command buffer routes to command mode; help mode only closes on `?` or
/// Enter; normal mode opens help or command entry, moves the selection, or
/// asks for a refresh.
pub open spec fn spec_handle_key(m: AppModel, key: KeyPress) -> (AppModel, AppAction) {
    if spec_is_quit_key(key) {
        (m, AppAction::Quit)
    } else if m.command_buffer.len() > 0 {
        spec_handle_command_key(m, key)
    } else if m.show_help {
        if key.key == Key::Char('?') || key.key is Enter {
            (AppModel { show_help: false, ..m }, AppAction::Idle)
        } else {
            (m, AppAction::Idle)
        }
    } else {
        match key.key {
            Key::Char(c) => {
                if c == '?' {
                    (
                        AppModel {
                            show_help: true,
                            status_message: Some("Help opened. Press ? or Enter to close."@),
                            ..m
                        },
                        AppAction::Idle,
                    )
                } else if c == ':' {
                    (
                        AppModel {
                            command_buffer: ":"@,
                            status_message: Some("Command mode: type :q to quit."@),
                            ..m
                        },
                        AppAction::Idle,
                    )
                } else if c == 'j' {
                    (
                        AppModel {
                            selected: spec_next_selection(m.selected, m.tasks.len() as int),
                            ..m
                        },
                        AppAction::Idle,
                    )
                } else if c == 'k' {
                    (
                        AppModel {
                            selected: spec_previous_selection(m.selected, m.tasks.len() as int),
                            ..m
                        },
                        AppAction::Idle,
                    )
                } else if c == 'g' {
                    (
                        AppModel {
                            selected: if m.tasks.len() == 0 {
                                None
                            } else {
                                Some(0usize)
                            },
                            ..m
                        },
                        AppAction::Idle,
                    )
                } else if c == 'G' {
                    (
                        AppModel {
                            selected: if m.tasks.len() == 0 {
                                None
                            } else {
                                Some((m.tasks.len() - 1) as usize)
                            },
                            ..m
                        },
                        AppAction::Idle,
                    )
                } else if c == 'r' {
                    (m, AppAction::Refresh)
                } else {
                    (m, AppAction::Idle)
                }
            },
            Key::Down => (
                AppModel {
                    selected: spec_next_selection(m.selected, m.tasks.len() as int),
                    ..m
                },
                AppAction::Idle,
            ),
            Key::Up => (
                AppModel {
                    selected: spec_previous_selection(m.selected, m.tasks.len() as int),
                    ..m
                },
                AppAction::Idle,
            ),
            Key::Home => (
                AppModel {
                    selected: if m.tasks.len() == 0 {
                        None
                    } else {
                        Some(0usize)
                    },
                    ..m
                },
                AppAction::Idle,
            ),
            Key::End => (
                AppModel {
                    selected: if m.tasks.len() == 0 {
                        None
                    } else {
                        Some((m.tasks.len() - 1) as usize)
                    },
                    ..m
                },
                AppAction::Idle,
            ),
            _ => (m, AppAction::Idle),
        }
    }
}

impl DashboardApp {
    /// A fresh dashboard over the fetched tasks, with the first task
    /// selected when there is one.
    pub fn new(tasks: Vec<Task>, filter: TaskFilter) -> (r: DashboardApp)
        ensures
            r@.tasks == tasks@,
            r@.filter == filter,
            r@.selected == if tasks@.len() > 0 {
                Some(0usize)
            } else {
                None::<usize>
            },
            !r@.show_help,
            r@.command_buffer.len() == 0,
            r@.status_message is None,
    {
        let selected = if tasks.len() > 0 {
            Some(0usize)
        } else {
            None
        };
        DashboardApp {
            tasks,
            filter,
            selected,
            show_help: false,
            command_buffer: String::new(),
            status_message: None,
        }
    }

    pub fn selected_index(&self) -> (r: Option<usize>)
        ensures
            r == self.selected,
    {
        self.selected
    }

    /// The selected task, when the selection is in range.
    pub fn selected_task(&self) -> (r: Option<&Task>)
        ensures
            match r {
                Some(t) => self.selected matches Some(i) && i < self.tasks@.len() && *t
                    == self.tasks@[i as int],
                None => match self.selected {
                    Some(i) => i >= self.tasks@.len(),
                    None => true,
                },
            },
    {
        match self.selected {
            Some(i) => {
                if i < self.tasks.len() {
                    Some(&self.tasks[i])
                } else {
                    None
                }
            },
            None => None,
        }
    }

    /// Installs a freshly fetched task list: the selection is clamped into
    /// the new list (or cleared when it is empty) and the status line
    /// reports how many tasks loaded.
    pub fn replace_tasks(&mut self, tasks: Vec<Task>)
        ensures
            final(self)@.tasks == tasks@,
            final(self)@.filter == old(self)@.filter,
            final(self)@.show_help == old(self)@.show_help,
            final(self)@.command_buffer == old(self)@.command_buffer,
            final(self)@.selected == if tasks@.len() == 0 {
                None::<usize>
            } else {
                Some(
                    {
                        let prev = match old(self)@.selected {
                            Some(i) => i,
                            None => 0usize,
                        };
                        if prev as int <= tasks@.len() - 1 {
                            prev
                        } else {
                            (tasks@.len() - 1) as usize
                        }
                    },
                )
            },
            final(self)@.status_message == Some(spec_refreshed_message(tasks@.len())),
    {
        let count = tasks.len();
        self.tasks = tasks;
        if count == 0 {
            self.selected = None;
        } else {
            let prev = match self.selected {
                Some(i) => i,
                None => 0,
            };
            let clamped = if prev <= count - 1 {
                prev
            } else {
                count - 1
            };
            self.selected = Some(clamped);
        }
        let mut message = String::from_str("Refreshed: ");
        let dec = u64_to_dec(count as u64);
        message.append(dec.as_str());
        message.append(" task");
        if count != 1 {
            message.append("s");
        }
        message.append(" loaded.");
        proof {
            assert(count == 1 ==> message@ =~= spec_refreshed_message(count as nat));
        }
        self.status_message = Some(message);
    }

    /// Sets the status line.
    pub fn set_status(&mut self, message: &str)
        ensures
            final(self)@ == (AppModel { status_message: Some(message@), ..old(self)@ }),
    {
        self.status_message = Some(message.to_owned());
    }

    pub fn select_next(&mut self)
        ensures
            final(self)@ == (AppModel {
                selected: spec_next_selection(old(self)@.selected, old(self)@.tasks.len() as int),
                ..old(self)@
            }),
    {
        if self.tasks.len() == 0 {
            self.selected = None;
            return ;
        }
        let next = match self.selected {
            Some(i) => if i < self.tasks.len() - 1 {
                i + 1
            } else {
                0
            },
            None => 0,
        };
        self.selected = Some(next);
    }

    pub fn select_previous(&mut self)
        ensures
            final(self)@ == (AppModel {
                selected: spec_previous_selection(
                    old(self)@.selected,
                    old(self)@.tasks.len() as int,
                ),
                ..old(self)@
            }),
    {
        if self.tasks.len() == 0 {
            self.selected = None;
            return ;
        }
        let previous = match self.selected {
            Some(i) => if i == 0 {
                self.tasks.len() - 1
            } else {
                i - 1
            },
            None => self.tasks.len() - 1,
        };
        self.selected = Some(previous);
    }

    pub fn select_first(&mut self)
        ensures
            final(self)@ == (AppModel {
                selected: if old(self)@.tasks.len() == 0 {
                    None::<usize>
                } else {
                    Some(0usize)
                },
                ..old(self)@
            }),
    {
        if self.tasks.len() == 0 {
            self.selected = None;
        } else {
            self.selected = Some(0);
        }
    }

    pub fn select_last(&mut self)
        ensures
            final(self)@ == (AppModel {
                selected: if old(self)@.tasks.len() == 0 {
                    None::<usize>
                } else {
                    Some((old(self)@.tasks.len() - 1) as usize)
                },
                ..old(self)@
            }),
    {
        if self.tasks.len() == 0 {
            self.selected = None;
        } else {
            self.selected = Some(self.tasks.len() - 1);
        }
    }

    /// One step of the input state machine.
    pub fn handle_key(&mut self, key: KeyPress) -> (r: AppAction)
        ensures
            (final(self)@, r) == spec_handle_key(old(self)@, key),
    {
        if is_quit_key(key) {
            return AppAction::Quit;
        }
        if self.command_buffer.as_str().unicode_len() > 0 {
            return self.handle_command_key(key);
        }
        if self.show_help {
            match key.key {
                Key::Char('?') | Key::Enter => {
                    self.show_help = false;
                },
                _ => {},
            }
            return AppAction::Idle;
        }
        match key.key {
            Key::Char(c) => {
                if c == '?' {
                    self.show_help = true;
                    self.status_message = Some(
                        String::from_str("Help opened. Press ? or Enter to close."),
                    );
                    AppAction::Idle
                } else if c == ':' {
                    self.command_buffer = String::from_str(":");
                    self.status_message = Some(String::from_str("Command mode: type :q to quit."));
                    AppAction::Idle
                } else if c == 'j' {
                    self.select_next();
                    AppAction::Idle
                } else if c == 'k' {
                    self.select_previous();
                    AppAction::Idle
                } else if c == 'g' {
                    self.select_first();
                    AppAction::Idle
                } else if c == 'G' {
                    self.select_last();
                    AppAction::Idle
                } else if c == 'r' {
                    AppAction::Refresh
                } else {
                    AppAction::Idle
                }
            },
            Key::Down => {
                self.select_next();
                AppAction::Idle
            },
            Key::Up => {
                self.select_previous();
                AppAction::Idle
            },
            Key::Home => {
                self.select_first();
                AppAction::Idle
            },
            Key::End => {
                self.select_last();
                AppAction::Idle
            },
            _ => AppAction::Idle,
        }
    }

    /// One step of command-entry mode.
    pub fn handle_command_key(&mut self, key: KeyPress) -> (r: AppAction)
        ensures
            (final(self)@, r) == spec_handle_command_key(old(self)@, key),
    {
        match key.key {
            Key::Enter => {
                let is_quit = str_eq(self.command_buffer.as_str(), ":q");
                let is_bare = str_eq(self.command_buffer.as_str(), ":");
                if is_quit {
                    self.command_buffer = String::new();
                    AppAction::Quit
                } else if is_bare {
                    self.command_buffer = String::new();
                    self.status_message = Some(String::from_str("Command cancelled."));
                    AppAction::Idle
                } else {
                    let mut message = String::from_str("Unknown command: ");
                    message.append(self.command_buffer.as_str());
                    self.command_buffer = String::new();
                    self.status_message = Some(message);
                    AppAction::Idle
                }
            },
            Key::Backspace => {
                let _ = pop_char(&mut self.command_buffer);
                if self.command_buffer.as_str().unicode_len() == 0 {
                    self.status_message = Some(String::from_str(DASHBOARD_HINT));
                }
                AppAction::Idle
            },
            Key::Char(c) => {
                if !key.ctrl && !key.alt {
                    push_char(&mut self.command_buffer, c);
                    if str_eq(self.command_buffer.as_str(), ":q") {
                        AppAction::Quit
                    } else {
                        AppAction::Idle
                    }
                } else {
                    AppAction::Idle
                }
            },
            _ => AppAction::Idle,
        }
    }

    /// Applies a refresh outcome: a fetched list replaces the tasks, and a
    /// failure becomes an in-place status message — never a crash.
    pub fn apply_refresh_result(&mut self, result: Result<Vec<Task>, CliError>)
        ensures
            result matches Ok(tasks) ==> {
                &&& final(self)@.tasks == tasks@
                &&& final(self)@.status_message == Some(spec_refreshed_message(tasks@.len()))
                &&& final(self)@.filter == old(self)@.filter
                &&& final(self)@.show_help == old(self)@.show_help
                &&& final(self)@.command_buffer == old(self)@.command_buffer
            },
            result matches Err(e) ==> final(self)@ == (AppModel {
                status_message: Some("Refresh failed: "@ + spec_error_first_line(e)),
                ..old(self)@
            }),
    {
        match result {
            Ok(tasks) => self.replace_tasks(tasks),
            Err(e) => {
                let rendered = e.render();
                let first_line = error_first_line(&rendered);
                let mut message = String::from_str("Refresh failed: ");
                message.append(first_line.as_str());
                self.status_message = Some(message);
            },
        }
    }
}

/// The first line of a rendered error, or a fixed fallback when the text
/// is empty.
pub open spec fn spec_error_first_line(e: CliError) -> Seq<char> {
    let rendered = spec_render(e);
    if rendered.len() == 0 {
        "Refresh failed."@
    } else {
        match spec_find(rendered, '\n') {
            Some(i) => rendered.take(i),
            None => rendered,
        }
    }
}

fn error_first_line(rendered: &String) -> (r: String)
    ensures
        rendered@.len() == 0 ==> r@ == "Refresh failed."@,
        rendered@.len() > 0 ==> r@ == match spec_find(rendered@, '\n') {
            Some(i) => rendered@.take(i),
            None => rendered@,
        },
{
    let n = rendered.as_str().unicode_len();
    if n == 0 {
        return String::from_str("Refresh failed.");
    }
    match crate::text::find_char(rendered.as_str(), '\n') {
        Some(i) => {
            let r = rendered.as_str().substring_char(0, i).to_owned();
            proof {
                assert(rendered@.subrange(0, i as int) == rendered@.take(i as int));
            }
            r
        },
        None => rendered.clone(),
    }
}

/// The Output error a terminal failure maps to: the failing step and the
/// underlying error text.
pub fn map_tui_error(context: &str, error_text: &str) -> (r: CliError)
    ensures
        r matches CliError::Output(message) && message@ == context@ + ": "@ + error_text@,
{
    let mut message = context.to_owned();
    message.append(": ");
    message.append(error_text);
    CliError::Output(message)
}

} // verus!
