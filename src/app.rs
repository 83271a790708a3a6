use vstd::prelude::*;
use crate::connect::{toggled, ConnectMode};
use crate::cursor::{advance, advance_spec, cursor_valid, retreat, retreat_spec, revalidate, revalidate_spec};
use crate::instance::{filter_items, filter_records, records_view, Data};
use crate::ring::{next_selection, previous_selection};
use crate::ssh_keys::SshKeys;
use crate::ssh_user::SshUsers;
use crate::text::opt_view;
use crate::user_input::{clamped, InputMode, UserInput};

verus! {

/// The views of the application.
#[derive(Debug, Clone, Copy, PartialEq, Eq, Structural)]
pub enum SelectedTab {
    List,
    Details,
}

/// Command-line options: the profile and the region, `"None"` when unset.
#[derive(Debug)]
pub struct Args {
    pub profile: String,
    pub region: String,
}

/// A key as the input layer reports it.
#[derive(Debug, Clone, Copy, PartialEq, Eq, Structural)]
pub enum KeyCode {
    Char(char),
    Enter,
    Esc,
    Backspace,
    Left,
    Right,
    Up,
    Down,
    Other,
}

/// A key event: the key, whether Control was held, and whether it is a press
/// (as opposed to a release or repeat).
#[derive(Debug, Clone, Copy, PartialEq, Eq, Structural)]
pub struct KeyEvent {
    pub code: KeyCode,
    pub control: bool,
    pub press: bool,
}

/// What a key asks of the application.
#[derive(Debug, Clone, Copy, PartialEq, Eq, Structural)]
pub enum Command {
    Quit,
    Refresh,
    Down,
    Up,
    NextKey,
    PreviousKey,
    ToggleSearch,
    NextUser,
    PreviousUser,
    ToggleConnectMode,
    ToggleHelp,
    Connect,
    InsertChar(char),
    DeleteChar,
    CursorLeft,
    CursorRight,
    Nothing,
}

/// Outside work that a key leaves to the caller.
#[derive(Debug, Clone, Copy, PartialEq, Eq, Structural)]
pub enum Action {
    Nothing,
    /// Fetch the instances again and hand them to `App::refresh`.
    Refresh,
    /// Plan a session with `App::plan_session` and run it.
    Connect,
}

/// The key bindings of each input mode.
pub open spec fn command_spec(mode: InputMode, key: KeyEvent) -> Command {
    match mode {
        InputMode::Normal => match key.code {
            KeyCode::Char(c) => if (c == 'c' || c == 'C') && key.control {
                Command::Quit
            } else if c == 'r' || c == 'R' {
                Command::Refresh
            } else if c == 'j' {
                Command::Down
            } else if c == 'k' {
                Command::Up
            } else if c == 'l' {
                Command::NextKey
            } else if c == 'h' {
                Command::PreviousKey
            } else if c == '/' {
                Command::ToggleSearch
            } else if c == 'n' {
                Command::NextUser
            } else if c == 'm' {
                Command::PreviousUser
            } else if c == 'p' {
                Command::ToggleConnectMode
            } else if c == '?' {
                Command::ToggleHelp
            } else if c == 's' {
                Command::Connect
            } else {
                Command::Nothing
            },
            KeyCode::Down => Command::Down,
            KeyCode::Up => Command::Up,
            KeyCode::Right => Command::NextKey,
            KeyCode::Left => Command::PreviousKey,
            KeyCode::Enter => Command::Connect,
            _ => Command::Nothing,
        },
        InputMode::Editing => if !key.press {
            Command::Nothing
        } else {
            match key.code {
                KeyCode::Enter => Command::ToggleSearch,
                KeyCode::Esc => Command::ToggleSearch,
                KeyCode::Char(c) => Command::InsertChar(c),
                KeyCode::Backspace => Command::DeleteChar,
                KeyCode::Left => Command::CursorLeft,
                KeyCode::Right => Command::CursorRight,
                KeyCode::Down => Command::Down,
                KeyCode::Up => Command::Up,
                _ => Command::Nothing,
            }
        },
    }
}

/// The command a key asks for in the given input mode.
pub fn command_for(mode: InputMode, key: KeyEvent) -> (r: Command)
    ensures
        r == command_spec(mode, key),
{
    match mode {
        InputMode::Normal => match key.code {
            KeyCode::Char(c) => if (c == 'c' || c == 'C') && key.control {
                Command::Quit
            } else if c == 'r' || c == 'R' {
                Command::Refresh
            } else if c == 'j' {
                Command::Down
            } else if c == 'k' {
                Command::Up
            } else if c == 'l' {
                Command::NextKey
            } else if c == 'h' {
                Command::PreviousKey
            } else if c == '/' {
                Command::ToggleSearch
            } else if c == 'n' {
                Command::NextUser
            } else if c == 'm' {
                Command::PreviousUser
            } else if c == 'p' {
                Command::ToggleConnectMode
            } else if c == '?' {
                Command::ToggleHelp
            } else if c == 's' {
                Command::Connect
            } else {
                Command::Nothing
            },
            KeyCode::Down => Command::Down,
            KeyCode::Up => Command::Up,
            KeyCode::Right => Command::NextKey,
            KeyCode::Left => Command::PreviousKey,
            KeyCode::Enter => Command::Connect,
            _ => Command::Nothing,
        },
        InputMode::Editing => if !key.press {
            Command::Nothing
        } else {
            match key.code {
                KeyCode::Enter => Command::ToggleSearch,
                KeyCode::Esc => Command::ToggleSearch,
                KeyCode::Char(c) => Command::InsertChar(c),
                KeyCode::Backspace => Command::DeleteChar,
                KeyCode::Left => Command::CursorLeft,
                KeyCode::Right => Command::CursorRight,
                KeyCode::Down => Command::Down,
                KeyCode::Up => Command::Up,
                _ => Command::Nothing,
            }
        },
    }
}

/// Where a session connects: an address, or an instance id reached through a
/// managed session.
#[derive(Debug)]
pub enum Target {
    Address(String),
    ManagedSession(String),
}

/// What starting a session comes to for the current selections.
#[derive(Debug)]
pub enum SessionPlan {
    /// No instance is selected: nothing is done.
    NoInstance,
    /// No credential is selected: nothing is launched and this is reported.
    NoCredential,
    /// Launch a session with this key, as this user, to this target.
    Launch { key: String, user: String, target: Target },
}

/// The login name used when no user is selected.
pub open spec fn fallback_user() -> Seq<char> {
    "ec2-user"@
}

/// `t` is the target that `mode` takes from the instance `d`.
pub open spec fn target_for(t: Target, mode: ConnectMode, d: Data) -> bool {
    match t {
        Target::Address(a) => match mode {
            ConnectMode::Private => a@ == d.private_ipv4@,
            ConnectMode::Public => a@ == d.public_ipv4@,
            ConnectMode::ManagedSession => false,
        },
        Target::ManagedSession(id) => mode == ConnectMode::ManagedSession && id@ == d.instance_id@,
    }
}

/// `p` is the session plan for the selections of `app`: nothing without a
/// selected instance, a refusal without a selected credential, and otherwise a
/// launch with the selected key, the selected user (or the fallback login
/// name), and the target that the connect mode takes from the instance.
pub open spec fn plan_for(app: &App, p: SessionPlan) -> bool {
    match app.selected {
        None => p is NoInstance,
        Some(i) => if i >= app.display_items@.len() {
            p is NoInstance
        } else {
            match app.ssh_keys.selected_key {
                None => p is NoCredential,
                Some(k) => match p {
                    SessionPlan::Launch { key, user, target } => {
                        &&& key@ == k@
                        &&& user@ == (match app.ssh_user.selected_user {
                            Some(u) => u@,
                            None => fallback_user(),
                        })
                        &&& target_for(target, app.connect_mode, app.display_items@[i as int])
                    },
                    _ => false,
                },
            }
        },
    }
}

/// The destination argument of a login: the user, `@`, then the host.
pub open spec fn destination_of(user: Seq<char>, host: Seq<char>) -> Seq<char> {
    user.push('@') + host
}

/// Appends the characters of `s` to `out`.
fn append_chars(out: &mut Vec<char>, s: &str)
    ensures
        final(out)@ == old(out)@ + s@,
{
    let cs = crate::text::chars_of(s);
    let ghost start = out@;
    let mut i: usize = 0;
    while i < cs.len()
        invariant
            i <= cs@.len(),
            out@ == start + cs@.subrange(0, i as int),
        decreases cs@.len() - i,
    {
        out.push(cs[i]);
        proof {
            assert(cs@.subrange(0, i as int + 1) =~= cs@.subrange(0, i as int).push(cs@[i as int]));
        }
        i = i + 1;
    }
    proof {
        assert(cs@.subrange(0, cs@.len() as int) =~= cs@);
    }
}

/// `user@host`, the destination of a login to `host` as `user`.
pub fn login_destination(user: &str, host: &str) -> (r: String)
    ensures
        r@ == destination_of(user@, host@),
{
    let mut out: Vec<char> = Vec::new();
    append_chars(&mut out, user);
    out.push('@');
    append_chars(&mut out, host);
    proof {
        assert(out@ =~= destination_of(user@, host@));
    }
    crate::text::string_from_chars(&out)
}

/// The application state.
#[derive(Debug)]
pub struct App {
    pub should_quit: bool,
    pub search: UserInput,
    pub args: Args,
    pub show_help: bool,
    pub input_mode: InputMode,
    pub items: Vec<Data>,
    pub display_items: Vec<Data>,
    pub selected: Option<usize>,
    pub ssh_keys: SshKeys,
    pub ssh_user: SshUsers,
    pub connect_mode: ConnectMode,
}

/// The instance lists and the row selection are the same.
pub open spec fn same_lists(a: &App, b: &App) -> bool {
    &&& a.items == b.items
    &&& a.display_items == b.display_items
    &&& a.selected == b.selected
}

/// The two rings are the same.
pub open spec fn same_rings(a: &App, b: &App) -> bool {
    a.ssh_keys == b.ssh_keys && a.ssh_user == b.ssh_user
}

/// The flags and the query are the same.
pub open spec fn same_flags(a: &App, b: &App) -> bool {
    &&& a.should_quit == b.should_quit
    &&& a.show_help == b.show_help
    &&& a.input_mode == b.input_mode
    &&& a.connect_mode == b.connect_mode
    &&& a.args == b.args
    &&& a.search == b.search
}

/// The state after `cmd`, for the parts it changes, with the rest unchanged.
pub open spec fn applied(old: &App, new: &App, cmd: Command) -> bool {
    let len = old.display_items@.len();
    match cmd {
        Command::Quit => new.should_quit && same_lists(old, new) && same_rings(old, new)
            && new.show_help == old.show_help && new.input_mode == old.input_mode
            && new.connect_mode == old.connect_mode && new.args == old.args && new.search == old.search,
        Command::Down => new.selected == advance_spec(len, old.selected) && new.items == old.items
            && new.display_items == old.display_items && same_rings(old, new) && same_flags(old, new),
        Command::Up => new.selected == retreat_spec(len, old.selected) && new.items == old.items
            && new.display_items == old.display_items && same_rings(old, new) && same_flags(old, new),
        Command::NextKey => new.ssh_keys.keys == old.ssh_keys.keys
            && new.ssh_keys.selected_view() == next_selection(old.ssh_keys.keys_view(), old.ssh_keys.selected_view())
            && new.ssh_user == old.ssh_user && same_lists(old, new) && same_flags(old, new),
        Command::PreviousKey => new.ssh_keys.keys == old.ssh_keys.keys
            && new.ssh_keys.selected_view() == previous_selection(old.ssh_keys.keys_view(), old.ssh_keys.selected_view())
            && new.ssh_user == old.ssh_user && same_lists(old, new) && same_flags(old, new),
        Command::NextUser => new.ssh_user.users == old.ssh_user.users
            && new.ssh_user.selected_view() == next_selection(old.ssh_user.users_view(), old.ssh_user.selected_view())
            && new.ssh_keys == old.ssh_keys && same_lists(old, new) && same_flags(old, new),
        Command::PreviousUser => new.ssh_user.users == old.ssh_user.users
            && new.ssh_user.selected_view() == previous_selection(old.ssh_user.users_view(), old.ssh_user.selected_view())
            && new.ssh_keys == old.ssh_keys && same_lists(old, new) && same_flags(old, new),
        Command::ToggleSearch => new.input_mode == (if old.input_mode == InputMode::Normal {
            InputMode::Editing
        } else {
            InputMode::Normal
        }) && new.should_quit == old.should_quit && new.show_help == old.show_help
            && new.connect_mode == old.connect_mode && new.args == old.args && new.search == old.search
            && same_lists(old, new) && same_rings(old, new),
        Command::ToggleConnectMode => new.connect_mode == toggled(old.connect_mode)
            && new.should_quit == old.should_quit && new.show_help == old.show_help
            && new.input_mode == old.input_mode && new.args == old.args && new.search == old.search
            && same_lists(old, new) && same_rings(old, new),
        Command::ToggleHelp => new.show_help == !old.show_help && new.should_quit == old.should_quit
            && new.connect_mode == old.connect_mode && new.input_mode == old.input_mode
            && new.args == old.args && new.search == old.search && same_lists(old, new) && same_rings(old, new),
        Command::InsertChar(c) => {
            let i = clamped(old.search.character_index, old.search.input@.len());
            &&& new.search.input@ == old.search.input@.insert(i as int, c)
            &&& new.search.character_index == i + 1
            &&& new.should_quit == old.should_quit && new.show_help == old.show_help
            &&& new.input_mode == old.input_mode && new.connect_mode == old.connect_mode
            &&& new.args == old.args && same_lists(old, new) && same_rings(old, new)
        },
        Command::DeleteChar => {
            let i = clamped(old.search.character_index, old.search.input@.len());
            &&& (if i == 0 {
                new.search.input@ == old.search.input@ && new.search.character_index == 0
            } else {
                new.search.input@ == old.search.input@.remove(i - 1) && new.search.character_index == i - 1
            })
            &&& new.should_quit == old.should_quit && new.show_help == old.show_help
            &&& new.input_mode == old.input_mode && new.connect_mode == old.connect_mode
            &&& new.args == old.args && same_lists(old, new) && same_rings(old, new)
        },
        Command::CursorLeft => {
            let i = clamped(old.search.character_index, old.search.input@.len());
            &&& new.search.input == old.search.input
            &&& new.search.character_index == (if i == 0 { 0 } else { i - 1 })
            &&& new.should_quit == old.should_quit && new.show_help == old.show_help
            &&& new.input_mode == old.input_mode && new.connect_mode == old.connect_mode
            &&& new.args == old.args && same_lists(old, new) && same_rings(old, new)
        },
        Command::CursorRight => {
            let i = clamped(old.search.character_index, old.search.input@.len());
            &&& new.search.input == old.search.input
            &&& new.search.character_index == (if i < old.search.input@.len() { i + 1 } else { i })
            &&& new.should_quit == old.should_quit && new.show_help == old.show_help
            &&& new.input_mode == old.input_mode && new.connect_mode == old.connect_mode
            &&& new.args == old.args && same_lists(old, new) && same_rings(old, new)
        },
        Command::Refresh | Command::Connect | Command::Nothing => same_lists(old, new)
            && same_rings(old, new) && same_flags(old, new),
    }
}

/// The outside work that follows `cmd`.
pub open spec fn action_of(cmd: Command) -> Action {
    match cmd {
        Command::Refresh => Action::Refresh,
        Command::Connect => Action::Connect,
        _ => Action::Nothing,
    }
}

impl App {
    /// A fresh application with no instances yet, in normal mode, connecting
    /// by private address.
    pub fn new(args: Args, ssh_keys: SshKeys, ssh_user: SshUsers) -> (r: App)
        ensures
            !r.should_quit,
            !r.show_help,
            r.input_mode == InputMode::Normal,
            r.search.input@.len() == 0,
            r.search.character_index == 0,
            r.items@.len() == 0,
            r.display_items@.len() == 0,
            r.selected is None,
            r.connect_mode == ConnectMode::Private,
            r.args == args,
            r.ssh_keys == ssh_keys,
            r.ssh_user == ssh_user,
    {
        App {
            should_quit: false,
            search: UserInput::new(),
            args,
            show_help: false,
            input_mode: InputMode::Normal,
            items: Vec::new(),
            display_items: Vec::new(),
            selected: None,
            ssh_keys,
            ssh_user,
            connect_mode: ConnectMode::Private,
        }
    }

    /// Asks the outer loop to stop.
    pub fn quit(&mut self)
        ensures
            final(self).should_quit,
            same_lists(old(self), final(self)),
            same_rings(old(self), final(self)),
            final(self).show_help == old(self).show_help,
            final(self).input_mode == old(self).input_mode,
            final(self).connect_mode == old(self).connect_mode,
            final(self).args == old(self).args,
            final(self).search == old(self).search,
    {
        self.should_quit = true;
    }

    /// Opens the search panel (editing) or closes it (normal).
    pub fn toggle_search(&mut self)
        ensures
            applied(old(self), final(self), Command::ToggleSearch),
    {
        self.input_mode = match self.input_mode {
            InputMode::Normal => InputMode::Editing,
            InputMode::Editing => InputMode::Normal,
        };
    }

    /// The search panel is shown exactly while editing.
    pub fn search_visible(&self) -> (r: bool)
        ensures
            r == (self.input_mode == InputMode::Editing),
    {
        self.input_mode == InputMode::Editing
    }

    /// Selects the next row, wrapping from the last to the first.
    pub fn ec2_next(&mut self)
        ensures
            applied(old(self), final(self), Command::Down),
    {
        self.selected = advance(self.display_items.len(), self.selected);
    }

    /// Selects the previous row, wrapping from the first to the last.
    pub fn ec2_previous(&mut self)
        ensures
            applied(old(self), final(self), Command::Up),
    {
        self.selected = retreat(self.display_items.len(), self.selected);
    }

    /// Recomputes the shown instances from the catalog and the query, and
    /// keeps the row selection within them.
    pub fn set_ec2s(&mut self)
        ensures
            final(self).items == old(self).items,
            records_view(final(self).display_items@) == filter_records(
                records_view(old(self).items@),
                old(self).search.input@,
            ),
            final(self).selected == revalidate_spec(final(self).display_items@.len(), old(self).selected),
            cursor_valid(final(self).display_items@.len(), final(self).selected),
            same_rings(old(self), final(self)),
            same_flags(old(self), final(self)),
    {
        let shown = filter_items(&self.items, self.search.input.as_str());
        proof {
            assert(shown@.len() == records_view(shown@).len());
        }
        self.display_items = shown;
        self.selected = revalidate(self.display_items.len(), self.selected);
    }

    /// Replaces the query, with the text cursor at its end, and recomputes
    /// the shown instances.
    pub fn set_filter(&mut self, query: String)
        ensures
            final(self).items == old(self).items,
            final(self).search.input == query,
            records_view(final(self).display_items@) == filter_records(records_view(old(self).items@), query@),
            final(self).selected == revalidate_spec(final(self).display_items@.len(), old(self).selected),
            cursor_valid(final(self).display_items@.len(), final(self).selected),
            same_rings(old(self), final(self)),
    {
        let n = crate::text::chars_of(query.as_str()).len();
        self.search.input = query;
        self.search.character_index = n;
        self.set_ec2s();
    }

    /// Replaces the whole catalog, shows it through the current query, and
    /// keeps the row selection within the shown instances.
    pub fn refresh(&mut self, records: Vec<Data>)
        ensures
            final(self).items == records,
            records_view(final(self).display_items@) == filter_records(records_view(records@), old(self).search.input@),
            final(self).selected == revalidate_spec(final(self).display_items@.len(), old(self).selected),
            cursor_valid(final(self).display_items@.len(), final(self).selected),
            same_rings(old(self), final(self)),
            same_flags(old(self), final(self)),
    {
        self.items = records;
        self.set_ec2s();
    }

    /// Carries out a command and says what outside work follows it.
    pub fn apply(&mut self, cmd: Command) -> (r: Action)
        ensures
            applied(old(self), final(self), cmd),
            r == action_of(cmd),
    {
        match cmd {
            Command::Quit => {
                self.quit();
                Action::Nothing
            },
            Command::Refresh => Action::Refresh,
            Command::Down => {
                self.ec2_next();
                Action::Nothing
            },
            Command::Up => {
                self.ec2_previous();
                Action::Nothing
            },
            Command::NextKey => {
                self.ssh_keys.next();
                Action::Nothing
            },
            Command::PreviousKey => {
                self.ssh_keys.previous();
                Action::Nothing
            },
            Command::ToggleSearch => {
                self.toggle_search();
                Action::Nothing
            },
            Command::NextUser => {
                self.ssh_user.next();
                Action::Nothing
            },
            Command::PreviousUser => {
                self.ssh_user.previous();
                Action::Nothing
            },
            Command::ToggleConnectMode => {
                self.connect_mode.toggle();
                Action::Nothing
            },
            Command::ToggleHelp => {
                self.show_help = !self.show_help;
                Action::Nothing
            },
            Command::Connect => Action::Connect,
            Command::InsertChar(c) => {
                self.search.enter_char(c);
                Action::Nothing
            },
            Command::DeleteChar => {
                self.search.delete_char();
                Action::Nothing
            },
            Command::CursorLeft => {
                self.search.move_cursor_left();
                Action::Nothing
            },
            Command::CursorRight => {
                self.search.move_cursor_right();
                Action::Nothing
            },
            Command::Nothing => Action::Nothing,
        }
    }

    /// What starting a session comes to for the current selections.
    pub fn plan_session(&self) -> (r: SessionPlan)
        ensures
            plan_for(self, r),
    {
        let i = match self.selected {
            Some(i) => i,
            None => return SessionPlan::NoInstance,
        };
        if i >= self.display_items.len() {
            return SessionPlan::NoInstance;
        }
        let key = match &self.ssh_keys.selected_key {
            Some(k) => k.clone(),
            None => return SessionPlan::NoCredential,
        };
        let user = match &self.ssh_user.selected_user {
            Some(u) => u.clone(),
            None => {
                proof {
                    reveal_strlit("ec2-user");
                }
                "ec2-user".to_owned()
            },
        };
        let item = &self.display_items[i];
        let target = match self.connect_mode {
            ConnectMode::Private => Target::Address(item.private_ipv4.clone()),
            ConnectMode::Public => Target::Address(item.public_ipv4.clone()),
            ConnectMode::ManagedSession => Target::ManagedSession(item.instance_id.clone()),
        };
        SessionPlan::Launch { key, user, target }
    }

    /// Handles one key event.
    pub fn update(&mut self, key: KeyEvent) -> (r: Action)
        ensures
            applied(old(self), final(self), command_spec(old(self).input_mode, key)),
            r == action_of(command_spec(old(self).input_mode, key)),
    {
        let cmd = command_for(self.input_mode, key);
        self.apply(cmd)
    }
}

} // verus!
