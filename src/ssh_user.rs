use vstd::prelude::*;
use crate::ring::{
    append_new, contains_string, ring_wf, current_index, current_index_of, next_of, next_selection,
    previous_of, previous_selection, push_new,
};
use crate::text::{opt_view, strings_view};

verus! {

/// The user part of the configuration file.
#[derive(Debug)]
pub struct Config {
    pub users: UserConfig,
}

/// Login users named in the configuration file.
#[derive(Debug)]
pub struct UserConfig {
    pub default_user: Option<String>,
    pub additional_users: Vec<String>,
}

impl Default for UserConfig {
    fn default() -> (r: Self)
        ensures
            r.default_user is None,
            r.additional_users@.len() == 0,
    {
        UserConfig { default_user: None, additional_users: Vec::new() }
    }
}

/// The login users that are always offered, in order.
pub open spec fn builtin_users() -> Seq<Seq<char>> {
    seq!["ec2-user"@, "ubuntu"@]
}

/// The users offered for a configuration: the built-in ones, then each
/// configured user not yet present.
pub open spec fn users_for(config: Option<UserConfig>) -> Seq<Seq<char>> {
    match config {
        Some(c) => append_new(builtin_users(), strings_view(c.additional_users@)),
        None => builtin_users(),
    }
}

/// The user selected at start: the configured default when it is offered,
/// otherwise the first user offered.
pub open spec fn initial_user(config: Option<UserConfig>) -> Option<Seq<char>> {
    let users = users_for(config);
    match config {
        Some(c) => match c.default_user {
            Some(d) => if users.contains(d@) { Some(d@) } else { Some(users[0]) },
            None => Some(users[0]),
        },
        None => Some(users[0]),
    }
}

/// The ring of login users.
#[derive(Debug)]
pub struct SshUsers {
    pub users: Vec<String>,
    pub selected_user: Option<String>,
}

impl SshUsers {
    pub open spec fn users_view(&self) -> Seq<Seq<char>> {
        strings_view(self.users@)
    }

    pub open spec fn selected_view(&self) -> Option<Seq<char>> {
        opt_view(self.selected_user)
    }

    /// Builds the ring from the configuration, if one was read.
    pub fn load(config: Option<UserConfig>) -> (r: SshUsers)
        ensures
            r.users_view() == users_for(config),
            r.selected_view() == initial_user(config),
            r.users_view().no_duplicates(),
            r.users_view().len() >= 2,
            ring_wf(r.users_view(), r.selected_view()),
    {
        let mut users: Vec<String> = Vec::new();
        users.push("ec2-user".to_owned());
        users.push("ubuntu".to_owned());
        proof {
            reveal_strlit("ec2-user");
            reveal_strlit("ubuntu");
            assert(strings_view(users@) =~= builtin_users());
            assert("ec2-user"@.len() == 8);
            assert("ubuntu"@.len() == 6);
            assert(builtin_users()[0] != builtin_users()[1]);
        }
        let ghost base = strings_view(users@);
        match config {
            Some(c) => {
                push_new(&mut users, &c.additional_users);
                proof {
                    crate::ring::lemma_append_new_no_duplicates(base, strings_view(c.additional_users@));
                    crate::ring::lemma_append_new_grows(base, strings_view(c.additional_users@));
                }
                let first = users[0].clone();
                let selected = match c.default_user {
                    Some(d) => if contains_string(&users, &d) {
                        Some(d)
                    } else {
                        Some(first)
                    },
                    None => Some(first),
                };
                SshUsers { users, selected_user: selected }
            },
            None => {
                let first = users[0].clone();
                SshUsers { users, selected_user: Some(first) }
            },
        }
    }

    /// Selects the next user, wrapping from the last to the first.
    pub fn next(&mut self)
        ensures
            final(self).users == old(self).users,
            final(self).selected_view() == next_selection(old(self).users_view(), old(self).selected_view()),
    {
        self.selected_user = next_of(&self.users, &self.selected_user);
    }

    /// Selects the previous user, wrapping from the first to the last.
    pub fn previous(&mut self)
        ensures
            final(self).users == old(self).users,
            final(self).selected_view() == previous_selection(old(self).users_view(), old(self).selected_view()),
    {
        self.selected_user = previous_of(&self.users, &self.selected_user);
    }

    /// Position of the selected user; 0 when it is absent.
    pub fn get_current_index(&self) -> (r: usize)
        ensures
            r == current_index_of(self.users_view(), self.selected_view()),
    {
        current_index(&self.users, &self.selected_user)
    }

    pub fn is_empty(&self) -> (r: bool)
        ensures
            r == (self.users@.len() == 0),
    {
        self.users.len() == 0
    }

    pub fn len(&self) -> (r: usize)
        ensures
            r == self.users@.len(),
    {
        self.users.len()
    }
}

} // verus!
