//! The `cmd` module maps keyboard input to variants of [`Act`]: the
//! mechanism for dispatching actions based on incoming keyboard events.
//!
//! The `Cmd` table stores the *inverse* of the configuration relation: the
//! configuration binds an action name (snake case) to a trigger key, while
//! lookups happen by incoming keystroke, so the table is keyed by the
//! trigger.  Several triggers may map to the same action; when two
//! configuration entries collide on a trigger, the last insert (in catalog
//! order of the actions) wins.

use crate::act::Act;
use vstd::prelude::*;

verus! {

/// A key identifier as the OS reports it: the debug name of a named key
/// (for example `Escape`), the text of a character key (for example `n`),
/// or some other kind of key that never resolves to an action.
#[derive(Debug, Clone)]
pub enum KeyId {
    /// A named key, carrying its platform-reported debug name.
    Named(String),
    /// A character key, carrying its text.
    Character(String),
    /// Any other kind of key.
    Other,
}

/// A keyboard event: whether the key was pressed (as opposed to released)
/// and which key it was.
#[derive(Debug, Clone)]
pub struct KeyEvent {
    /// True for a press, false for a release.
    pub pressed: bool,
    /// The key the event is about.
    pub key: KeyId,
}

impl KeyId {
    /// The string under which this key is looked up in the table, if any.
    pub open spec fn ident(self) -> Option<Seq<char>> {
        match self {
            KeyId::Named(s) => Some(s@),
            KeyId::Character(s) => Some(s@),
            KeyId::Other => None,
        }
    }
}

/// The view of an owned binding list: each trigger string replaced by its
/// character sequence.
pub open spec fn cmd_view(s: Seq<(String, Act)>) -> Seq<(Seq<char>, Act)> {
    Seq::new(s.len(), |i: int| (s[i].0@, s[i].1))
}

/// The view of an owned configuration pair list.
pub open spec fn pairs_view(s: Seq<(String, String)>) -> Seq<(Seq<char>, Seq<char>)> {
    Seq::new(s.len(), |i: int| (s[i].0@, s[i].1@))
}

/// Looks a trigger up in a binding list, later inserts shadowing earlier
/// ones (last-insert-wins).
pub open spec fn binding_lookup(entries: Seq<(Seq<char>, Act)>, key: Seq<char>) -> Option<Act>
    decreases entries.len(),
{
    if entries.len() == 0 {
        None
    } else if entries.last().0 == key {
        Some(entries.last().1)
    } else {
        binding_lookup(entries.drop_last(), key)
    }
}

/// Looks an action name up in a configuration source, first match wins
/// (a well-formed source names each action at most once).
pub open spec fn source_lookup(entries: Seq<(Seq<char>, Seq<char>)>, key: Seq<char>) -> Option<
    Seq<char>,
>
    decreases entries.len(),
{
    if entries.len() == 0 {
        None
    } else if entries.first().0 == key {
        Some(entries.first().1)
    } else {
        source_lookup(entries.drop_first(), key)
    }
}

/// One step of building the table: if the source binds `a`'s snake-case
/// name to a trigger, append `trigger -> a`, else leave the table as it is.
pub open spec fn bind_step(
    entries: Seq<(Seq<char>, Act)>,
    src: Seq<(Seq<char>, Seq<char>)>,
    a: Act,
) -> Seq<(Seq<char>, Act)> {
    match source_lookup(src, a.snake_spec()) {
        Some(v) => entries.push((v, a)),
        None => entries,
    }
}

/// The whole table built from a source: every action of the catalog
/// considered once, in catalog order.
pub open spec fn build_spec(src: Seq<(Seq<char>, Seq<char>)>) -> Seq<(Seq<char>, Act)> {
    bind_step(
        bind_step(
            bind_step(
                bind_step(Seq::empty(), src, Act::CloseWindow),
                src,
                Act::Exit,
            ),
            src,
            Act::NewWindow,
        ),
        src,
        Act::Be,
    )
}

/// The fixed fallback source, used when the whole configuration is
/// unreadable: `Escape` exits, `n` opens a new window.
pub open spec fn default_source() -> Seq<(Seq<char>, Seq<char>)> {
    seq![("exit"@, "Escape"@), ("new_window"@, "n"@)]
}

/// The key-binding table: trigger key to action, built once at startup.
#[derive(Debug, Clone)]
pub struct Cmd {
    /// The bindings, in insertion order; later entries shadow earlier ones.
    pub entries: Vec<(String, Act)>,
}

impl View for Cmd {
    type V = Seq<(Seq<char>, Act)>;

    open spec fn view(&self) -> Seq<(Seq<char>, Act)> {
        cmd_view(self.entries@)
    }
}

impl Cmd {
    /// Wraps an explicit binding list.
    pub fn new(entries: Vec<(String, Act)>) -> (r: Cmd)
        ensures
            r@ == cmd_view(entries@),
    {
        Cmd { entries }
    }

    /// Resolves a trigger key to its bound action.  Exact, case-sensitive
    /// string match; no match yields `None`, never the default action.
    pub fn lookup(&self, key: &String) -> (r: Option<Act>)
        ensures
            r == binding_lookup(self@, key@),
    {
        let mut i: usize = self.entries.len();
        proof {
            assert(self@.take(i as int) =~= self@);
        }
        while i > 0
            invariant
                i <= self.entries.len(),
                binding_lookup(self@, key@) == binding_lookup(self@.take(i as int), key@),
            decreases i,
        {
            let prev: usize = i;
            i = i - 1;
            let e = &self.entries[i];
            if e.0 == *key {
                proof {
                    assert(self@.take(prev as int).last() == (self.entries@[i as int].0@, self.entries@[i as int].1));
                }
                return Some(e.1);
            }
            proof {
                assert(self@.take(prev as int).drop_last() =~= self@.take(i as int));
            }
        }
        proof {
            assert(self@.take(0) =~= Seq::<(Seq<char>, Act)>::empty());
        }
        None
    }

    /// The action a keyboard event resolves to, ignoring whether the key
    /// was pressed or released.
    pub open spec fn act_spec(self, ev: KeyEvent) -> Option<Act> {
        match ev.key.ident() {
            Some(k) => binding_lookup(self@, k),
            None => None,
        }
    }

    /// Checks whether the key of an incoming keyboard event maps to an
    /// [`Act`] variant.
    pub fn act(&self, event: &KeyEvent) -> (r: Option<Act>)
        ensures
            r == self.act_spec(*event),
    {
        match &event.key {
            KeyId::Named(s) => self.lookup(s),
            KeyId::Character(s) => self.lookup(s),
            KeyId::Other => None,
        }
    }

    /// Builds the table from a readable configuration source, given as the
    /// source's flat list of key/value pairs: for each action of the
    /// catalog whose snake-case name the source binds, insert
    /// `trigger -> action`.
    pub fn from_entries(src: &Vec<(String, String)>) -> (r: Cmd)
        ensures
            r@ == build_spec(pairs_view(src@)),
    {
        let mut entries: Vec<(String, Act)> = Vec::new();
        proof {
            assert(cmd_view(entries@) =~= Seq::<(Seq<char>, Act)>::empty());
        }
        bind(&mut entries, src, Act::CloseWindow);
        bind(&mut entries, src, Act::Exit);
        bind(&mut entries, src, Act::NewWindow);
        bind(&mut entries, src, Act::Be);
        Cmd { entries }
    }

    /// Builds the table at startup.  A readable source (`Some`) is used as
    /// it stands, even when it binds only some actions; an unreadable or
    /// unparsable source (`None`) falls back atomically to the whole fixed
    /// default table.
    pub fn from_source(src: Option<&Vec<(String, String)>>) -> (r: Cmd)
        ensures
            match src {
                Some(s) => r@ == build_spec(pairs_view(s@)),
                None => r@ == build_spec(default_source()),
            },
            src is None ==> binding_lookup(r@, "Escape"@) == Some(Act::Exit),
            src is None ==> binding_lookup(r@, "n"@) == Some(Act::NewWindow),
    {
        match src {
            Some(s) => Cmd::from_entries(s),
            None => {
                let mut d: Vec<(String, String)> = Vec::new();
                d.push(("exit".to_owned(), "Escape".to_owned()));
                d.push(("new_window".to_owned(), "n".to_owned()));
                let r = Cmd::from_entries(&d);
                proof {
                    assert(pairs_view(d@) =~= default_source());
                    lemma_default_bindings();
                }
                r
            },
        }
    }
}

impl Default for Cmd {
    /// An empty table, which resolves no key at all.
    fn default() -> (r: Self)
        ensures
            r@ == Seq::<(Seq<char>, Act)>::empty(),
    {
        let entries: Vec<(String, Act)> = Vec::new();
        proof {
            assert(cmd_view(entries@) =~= Seq::<(Seq<char>, Act)>::empty());
        }
        Cmd { entries }
    }
}

/// Appends `trigger -> a` when the source binds `a`'s snake-case name to
/// `trigger`; otherwise leaves the binding list unchanged.
fn bind(entries: &mut Vec<(String, Act)>, src: &Vec<(String, String)>, a: Act)
    ensures
        cmd_view(final(entries)@) == bind_step(cmd_view(old(entries)@), pairs_view(src@), a),
{
    let key = a.snake();
    match source_get(src, &key) {
        Some(v) => {
            let ghost vv: Seq<char> = v@;
            entries.push((v, a));
            proof {
                assert(cmd_view(entries@) =~= cmd_view(old(entries)@).push((vv, a)));
            }
        },
        None => {},
    }
}

/// First-match lookup of `key` among the source's pairs, handing back an
/// owned copy of the bound value.
fn source_get(src: &Vec<(String, String)>, key: &String) -> (r: Option<String>)
    ensures
        match r {
            Some(v) => source_lookup(pairs_view(src@), key@) == Some(v@),
            None => source_lookup(pairs_view(src@), key@) is None,
        },
{
    let mut i: usize = 0;
    proof {
        assert(pairs_view(src@).skip(0) =~= pairs_view(src@));
    }
    while i < src.len()
        invariant
            i <= src.len(),
            source_lookup(pairs_view(src@), key@) == source_lookup(
                pairs_view(src@).skip(i as int),
                key@,
            ),
        decreases src.len() - i,
    {
        let e = &src[i];
        proof {
            assert(pairs_view(src@).skip(i as int).first() == (src@[i as int].0@, src@[i as int].1@));
        }
        if e.0 == *key {
            return Some(e.1.clone());
        }
        proof {
            assert(pairs_view(src@).skip(i as int).drop_first() =~= pairs_view(src@).skip(
                i as int + 1,
            ));
        }
        i = i + 1;
    }
    proof {
        assert(pairs_view(src@).skip(i as int) =~= Seq::<(Seq<char>, Seq<char>)>::empty());
    }
    None
}

/// The fallback table really binds its two defaults: `Escape` to `Exit` and
/// `n` to `NewWindow`.
proof fn lemma_default_bindings()
    ensures
        binding_lookup(build_spec(default_source()), "Escape"@) == Some(Act::Exit),
        binding_lookup(build_spec(default_source()), "n"@) == Some(Act::NewWindow),
{
    reveal_strlit("exit");
    reveal_strlit("new_window");
    reveal_strlit("close_window");
    reveal_strlit("be");
    reveal_strlit("Escape");
    reveal_strlit("n");
    reveal_with_fuel(source_lookup, 4);
    reveal_with_fuel(binding_lookup, 4);
    let src = default_source();
    assert("exit"@.len() == 4);
    assert("new_window"@.len() == 10);
    assert("close_window"@.len() == 12);
    assert("be"@.len() == 2);
    assert("Escape"@.len() == 6);
    assert("n"@.len() == 1);
    assert("exit"@ != "close_window"@);
    assert("new_window"@ != "close_window"@);
    assert("exit"@ != "be"@);
    assert("new_window"@ != "be"@);
    assert("exit"@ != "new_window"@);
    assert(src.drop_first() =~= seq![("new_window"@, "n"@)]);
    assert(src.drop_first().drop_first() =~= Seq::<(Seq<char>, Seq<char>)>::empty());
    assert(src.first() == ("exit"@, "Escape"@));
    assert(src.drop_first().first() == ("new_window"@, "n"@));
    assert(source_lookup(src.drop_first().drop_first(), "close_window"@) is None);
    assert(source_lookup(src.drop_first(), "close_window"@) is None);
    assert(source_lookup(src, "close_window"@) is None);
    assert(source_lookup(src, "exit"@) == Some("Escape"@));
    assert(source_lookup(src.drop_first(), "new_window"@) == Some("n"@));
    assert(source_lookup(src, "new_window"@) == Some("n"@));
    assert(source_lookup(src.drop_first().drop_first(), "be"@) is None);
    assert(source_lookup(src.drop_first(), "be"@) is None);
    assert(source_lookup(src, "be"@) is None);
    let built = build_spec(src);
    assert(built =~= seq![("Escape"@, Act::Exit), ("n"@, Act::NewWindow)]);
    assert("n"@ != "Escape"@);
    assert(built.last() == ("n"@, Act::NewWindow));
    assert(built.drop_last() =~= seq![("Escape"@, Act::Exit)]);
    assert(built.drop_last().last() == ("Escape"@, Act::Exit));
    assert(binding_lookup(built.drop_last(), "Escape"@) == Some(Act::Exit));
    assert(binding_lookup(built, "Escape"@) == Some(Act::Exit));
    assert(binding_lookup(built, "n"@) == Some(Act::NewWindow));
}

} // verus!
