use vstd::prelude::*;
use crate::ring::{
    append_new, contains_string, ring_wf, current_index, current_index_of, next_of, next_selection,
    previous_of, previous_selection, push_new,
};
use crate::text::{chars_of, opt_view, string_from_chars, strings_view};

verus! {

/// The key part of the configuration file.
#[derive(Debug)]
pub struct Config {
    pub keys: KeyConfig,
}

/// Private keys named in the configuration file.
#[derive(Debug)]
pub struct KeyConfig {
    pub default_key: Option<String>,
    pub additional_keys: Vec<String>,
}

impl Default for KeyConfig {
    fn default() -> (r: Self)
        ensures
            r.default_key is None,
            r.additional_keys@.len() == 0,
    {
        KeyConfig { default_key: None, additional_keys: Vec::new() }
    }
}

/// What `Path::file_name` reads as the final component of a path.
pub uninterp spec fn file_name_of(path: Seq<char>) -> Option<Seq<char>>;

/// Relies on `std::path::Path::file_name`, read back as text: the final
/// component of the path, if it has one.
#[verifier::external_body]
fn file_name(path: &str) -> (r: Option<String>)
    ensures
        opt_view(r) == file_name_of(path@),
{
    std::path::Path::new(path).file_name().map(|n| n.to_string_lossy().into_owned())
}

/// The path starts with the home directory shorthand `~/`.
pub open spec fn starts_at_home(p: Seq<char>) -> bool {
    p.len() >= 2 && p[0] == '~' && p[1] == '/'
}

/// The path with a leading `~` replaced by the home directory, when the path
/// starts with `~/` and the home directory is known.
pub open spec fn expanded(p: Seq<char>, home: Option<Seq<char>>) -> Seq<char> {
    match home {
        Some(h) => if starts_at_home(p) { h + p.subrange(1, p.len() as int) } else { p },
        None => p,
    }
}

/// A configured default key that holds a path separator names a full path;
/// otherwise it names a file in the key directory.
pub open spec fn path_like(d: Seq<char>) -> bool {
    d.contains('/') || d.contains('\\')
}

/// The first key whose file name is `name`.
pub open spec fn first_named(keys: Seq<Seq<char>>, name: Seq<char>) -> Option<Seq<char>>
    decreases keys.len(),
{
    if keys.len() == 0 {
        None
    } else if file_name_of(keys[0]) == Some(name) {
        Some(keys[0])
    } else {
        first_named(keys.drop_first(), name)
    }
}

/// A key found by file name is one of the keys.
proof fn lemma_first_named_member(keys: Seq<Seq<char>>, name: Seq<char>)
    ensures
        first_named(keys, name) matches Some(k) ==> keys.contains(k),
    decreases keys.len(),
{
    if keys.len() > 0 && file_name_of(keys[0]) != Some(name) {
        lemma_first_named_member(keys.drop_first(), name);
        if let Some(k) = first_named(keys.drop_first(), name) {
            let j = choose|j: int| 0 <= j < keys.drop_first().len() && keys.drop_first()[j] == k;
            assert(keys[j + 1] == k);
        }
    }
}

/// The key that a configured default names among `keys`, if any.
pub open spec fn configured_key(keys: Seq<Seq<char>>, d: Seq<char>, home: Option<Seq<char>>) -> Option<Seq<char>> {
    if path_like(d) {
        if keys.contains(expanded(d, home)) { Some(expanded(d, home)) } else { None }
    } else {
        first_named(keys, d)
    }
}

/// The keys offered: the keys found, then the configured ones, each once.
pub open spec fn keys_for(found: Seq<Seq<char>>, extra: Seq<Seq<char>>) -> Seq<Seq<char>> {
    append_new(append_new(Seq::empty(), found), extra)
}

/// The key selected at start: the one the configured default names, else the
/// first key, else none.
pub open spec fn initial_key(keys: Seq<Seq<char>>, default_key: Option<Seq<char>>, home: Option<Seq<char>>) -> Option<Seq<char>> {
    let named = match default_key {
        Some(d) => configured_key(keys, d, home),
        None => None,
    };
    match named {
        Some(k) => Some(k),
        None => if keys.len() > 0 { Some(keys[0]) } else { None },
    }
}

/// Replaces a leading `~` of a path that starts with `~/` by the home
/// directory, when that is known.
pub fn expand_home_dir(path: &str, home: &Option<String>) -> (r: String)
    ensures
        r@ == expanded(path@, opt_view(*home)),
{
    let cs = chars_of(path);
    match home {
        Some(h) => {
            if cs.len() >= 2 && cs[0] == '~' && cs[1] == '/' {
                let mut out = chars_of(h.as_str());
                let ghost hv = out@;
                let mut i: usize = 1;
                while i < cs.len()
                    invariant
                        1 <= i <= cs@.len(),
                        out@ == hv + cs@.subrange(1, i as int),
                    decreases cs@.len() - i,
                {
                    out.push(cs[i]);
                    proof {
                        assert(cs@.subrange(1, i as int + 1) =~= cs@.subrange(1, i as int).push(cs@[i as int]));
                    }
                    i = i + 1;
                }
                string_from_chars(&out)
            } else {
                string_from_chars(&cs)
            }
        },
        None => string_from_chars(&cs),
    }
}

/// Whether the text holds `/` or `\`.
fn holds_separator(s: &str) -> (r: bool)
    ensures
        r == path_like(s@),
{
    let cs = chars_of(s);
    let mut i: usize = 0;
    while i < cs.len()
        invariant
            i <= cs@.len(),
            cs@ == s@,
            forall|j: int| 0 <= j < i ==> cs@[j] != '/' && cs@[j] != '\\',
        decreases cs@.len() - i,
    {
        if cs[i] == '/' || cs[i] == '\\' {
            return true;
        }
        i = i + 1;
    }
    false
}

/// The first key whose file name is `name`.
fn find_named(keys: &Vec<String>, name: &String) -> (r: Option<String>)
    ensures
        opt_view(r) == first_named(strings_view(keys@), name@),
{
    let ghost all = strings_view(keys@);
    let mut i: usize = 0;
    proof {
        assert(all.subrange(0, all.len() as int) =~= all);
    }
    while i < keys.len()
        invariant
            i <= keys@.len(),
            all == strings_view(keys@),
            first_named(all, name@) == first_named(all.subrange(i as int, all.len() as int), name@),
        decreases keys@.len() - i,
    {
        let ghost rest = all.subrange(i as int, all.len() as int);
        proof {
            assert(rest.drop_first() =~= all.subrange(i as int + 1, all.len() as int));
            assert(rest[0] == keys@[i as int]@);
        }
        let f = file_name(keys[i].as_str());
        match f {
            Some(n) => {
                if n == *name {
                    return Some(keys[i].clone());
                }
            },
            None => {},
        }
        i = i + 1;
    }
    None
}

/// The ring of private keys.
#[derive(Debug)]
pub struct SshKeys {
    pub keys: Vec<String>,
    pub selected_key: Option<String>,
}

impl SshKeys {
    pub open spec fn keys_view(&self) -> Seq<Seq<char>> {
        strings_view(self.keys@)
    }

    pub open spec fn selected_view(&self) -> Option<Seq<char>> {
        opt_view(self.selected_key)
    }

    /// Builds the ring from the keys found in the key directory, the
    /// configured keys that exist (paths already expanded), the configured
    /// default key, and the home directory.
    pub fn load(found: Vec<String>, extra: Vec<String>, default_key: Option<String>, home: Option<String>) -> (r: SshKeys)
        ensures
            r.keys_view() == keys_for(strings_view(found@), strings_view(extra@)),
            r.selected_view() == initial_key(r.keys_view(), opt_view(default_key), opt_view(home)),
            r.keys_view().no_duplicates(),
            ring_wf(r.keys_view(), r.selected_view()),
    {
        let mut keys: Vec<String> = Vec::new();
        proof {
            assert(strings_view(keys@) =~= Seq::<Seq<char>>::empty());
        }
        push_new(&mut keys, &found);
        push_new(&mut keys, &extra);
        proof {
            let once = append_new(Seq::empty(), strings_view(found@));
            crate::ring::lemma_append_new_no_duplicates(Seq::empty(), strings_view(found@));
            crate::ring::lemma_append_new_no_duplicates(once, strings_view(extra@));
        }
        let ghost dk = opt_view(default_key);
        proof {
            if let Some(d) = dk {
                lemma_first_named_member(strings_view(keys@), d);
            }
        }
        let named: Option<String> = match default_key {
            Some(d) => {
                if holds_separator(d.as_str()) {
                    let e = expand_home_dir(d.as_str(), &home);
                    if contains_string(&keys, &e) {
                        Some(e)
                    } else {
                        None
                    }
                } else {
                    find_named(&keys, &d)
                }
            },
            None => None,
        };
        let selected = match named {
            Some(k) => Some(k),
            None => if keys.len() > 0 {
                Some(keys[0].clone())
            } else {
                None
            },
        };
        SshKeys { keys, selected_key: selected }
    }

    /// Selects the next key, wrapping from the last to the first.
    pub fn next(&mut self)
        ensures
            final(self).keys == old(self).keys,
            final(self).selected_view() == next_selection(old(self).keys_view(), old(self).selected_view()),
    {
        self.selected_key = next_of(&self.keys, &self.selected_key);
    }

    /// Selects the previous key, wrapping from the first to the last.
    pub fn previous(&mut self)
        ensures
            final(self).keys == old(self).keys,
            final(self).selected_view() == previous_selection(old(self).keys_view(), old(self).selected_view()),
    {
        self.selected_key = previous_of(&self.keys, &self.selected_key);
    }

    /// Position of the selected key; 0 when it is absent.
    pub fn get_current_index(&self) -> (r: usize)
        ensures
            r == current_index_of(self.keys_view(), self.selected_view()),
    {
        current_index(&self.keys, &self.selected_key)
    }

    pub fn is_empty(&self) -> (r: bool)
        ensures
            r == (self.keys@.len() == 0),
    {
        self.keys.len() == 0
    }

    pub fn len(&self) -> (r: usize)
        ensures
            r == self.keys@.len(),
    {
        self.keys.len()
    }
}

} // verus!
