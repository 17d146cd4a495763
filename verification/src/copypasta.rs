//! Copy pastas: named texts that bear repeating, read from a TOML table
//! of strings.
use vstd::prelude::*;

verus! {

/// The entries of a TOML table of strings, in key order.
pub uninterp spec fn toml_string_table(contents: Seq<char>) -> Option<Seq<(Seq<char>, Seq<char>)>>;

/// The views of a list of named texts.
pub open spec fn entries_view(v: Seq<(String, String)>) -> Seq<(Seq<char>, Seq<char>)> {
    v.map_values(|e: (String, String)| (e.0@, e.1@))
}

/// No two entries share a name.
pub open spec fn keys_unique(v: Seq<(Seq<char>, Seq<char>)>) -> bool {
    forall|i: int, j: int| 0 <= i < j < v.len() ==> #[trigger] v[i].0 != #[trigger] v[j].0
}

/// `toml::from_str::<BTreeMap<String, String>>`: reads `contents` as a
/// TOML table whose values are all strings, and lists its entries in
/// key order; `Err` holds the parser's message. The entries depend on
/// the text alone, and a map holds each key once.
#[verifier::external_body]
fn parse_toml_table(contents: &str) -> (r: Result<Vec<(String, String)>, String>)
    ensures
        match r {
            Ok(v) => toml_string_table(contents@) == Some(entries_view(v@)) && keys_unique(
                entries_view(v@),
            ),
            Err(_) => toml_string_table(contents@) is None,
        },
{
    toml::from_str::<std::collections::BTreeMap<String, String>>(contents).map(
        |m| m.into_iter().collect(),
    ).map_err(|e| e.to_string())
}

/// A table of copy pastas by name.
#[derive(Debug, Clone)]
pub struct CopyPastas {
    entries: Vec<(String, String)>,
}

/// The text of the first entry at or after `i` named `name`.
pub open spec fn lookup_from(v: Seq<(Seq<char>, Seq<char>)>, name: Seq<char>, i: nat) -> Option<
    Seq<char>,
>
    decreases v.len() - i,
{
    if i >= v.len() {
        None
    } else if v[i as int].0 == name {
        Some(v[i as int].1)
    } else {
        lookup_from(v, name, i + 1)
    }
}

/// The text stored under `name` (the first entry with that name).
pub open spec fn lookup(v: Seq<(Seq<char>, Seq<char>)>, name: Seq<char>) -> Option<Seq<char>> {
    lookup_from(v, name, 0)
}

impl CopyPastas {
    pub closed spec fn view_entries(&self) -> Seq<(Seq<char>, Seq<char>)> {
        entries_view(self.entries@)
    }

    pub closed spec fn wf(&self) -> bool {
        keys_unique(entries_view(self.entries@))
    }

    /// A table with no copy pastas.
    pub fn empty() -> (r: Self)
        ensures
            r.wf(),
            r.view_entries().len() == 0,
    {
        let r = CopyPastas { entries: Vec::new() };
        proof {
            assert(entries_view(r.entries@) =~= Seq::<(Seq<char>, Seq<char>)>::empty());
        }
        r
    }

    /// The table written in `contents` (a TOML table of strings), or the
    /// parser's message.
    pub fn from_toml(contents: &str) -> (r: Result<Self, String>)
        ensures
            match r {
                Ok(t) => t.wf() && toml_string_table(contents@) == Some(t.view_entries()),
                Err(_) => toml_string_table(contents@) is None,
            },
    {
        match parse_toml_table(contents) {
            Ok(entries) => Ok(CopyPastas { entries }),
            Err(e) => Err(e),
        }
    }

    /// The names of all copy pastas.
    pub fn names(&self) -> (r: Vec<String>)
        ensures
            r@.map_values(|s: String| s@) == self.view_entries().map_values(
                |e: (Seq<char>, Seq<char>)| e.0,
            ),
    {
        let mut r: Vec<String> = Vec::new();
        let mut i: usize = 0;
        while i < self.entries.len()
            invariant
                i <= self.entries.len(),
                r@.map_values(|s: String| s@) == entries_view(self.entries@).take(
                    i as int,
                ).map_values(|e: (Seq<char>, Seq<char>)| e.0),
            decreases self.entries.len() - i,
        {
            let ghost before = r@.map_values(|s: String| s@);
            let name = self.entries[i].0.clone();
            r.push(name);
            proof {
                assert(name@ == entries_view(self.entries@)[i as int].0);
                assert(r@.map_values(|s: String| s@) =~= before.push(name@));
                assert(r@.map_values(|s: String| s@) =~= entries_view(self.entries@).take(
                    i + 1,
                ).map_values(|e: (Seq<char>, Seq<char>)| e.0));
            }
            i = i + 1;
        }
        proof {
            assert(entries_view(self.entries@).take(self.entries.len() as int) =~= entries_view(
                self.entries@,
            ));
        }
        r
    }

    /// The copy pasta stored under `name`.
    pub fn get(&self, name: &str) -> (r: Option<String>)
        ensures
            match r {
                Some(t) => lookup(self.view_entries(), name@) == Some(t@),
                None => lookup(self.view_entries(), name@) is None,
            },
    {
        let ghost v = entries_view(self.entries@);
        let mut i: usize = 0;
        while i < self.entries.len()
            invariant
                i <= self.entries.len(),
                v == entries_view(self.entries@),
                lookup(v, name@) == lookup_from(v, name@, i as nat),
            decreases self.entries.len() - i,
        {
            if crate::text::chars_eq_str(&crate::text::chars_of(self.entries[i].0.as_str()), name) {
                return Some(self.entries[i].1.clone());
            }
            i = i + 1;
        }
        None
    }
}

/// The names of all copy pastas.
pub fn copy_pasta_names(pastas: &CopyPastas) -> (r: Vec<String>)
    ensures
        r@.map_values(|s: String| s@) == pastas.view_entries().map_values(
            |e: (Seq<char>, Seq<char>)| e.0,
        ),
{
    pastas.names()
}

/// The copy pasta with the given name.
pub fn copy_pasta(pastas: &CopyPastas, name: &str) -> (r: Option<String>)
    ensures
        match r {
            Some(t) => lookup(pastas.view_entries(), name@) == Some(t@),
            None => lookup(pastas.view_entries(), name@) is None,
        },
{
    pastas.get(name)
}


// ---------------------------------------------------------------------
// the built-in copy pastas of the coin bot
// ---------------------------------------------------------------------

/// The interjection about GNU plus Linux.
pub const GNU_PLUS_LINUX: &'static str = "I'd just like to interject for a moment. What you're referring to as Linux, is in fact, GNU/Linux, or as I've recently taken to calling it, GNU plus Linux. Linux is not an operating system unto itself, but rather another free component of a fully functioning GNU system made useful by the GNU corelibs, shell utilities and vital system components comprising a full OS as defined by POSIX.

Many computer users run a modified version of the GNU system every day, without realizing it. Through a peculiar turn of events, the version of GNU which is widely used today is often called \"Linux\", and many of its users are not aware that it is basically the GNU system, developed by the GNU Project.

There really is a Linux, and these people are using it, but it is just a part of the system they use. Linux is the kernel: the program in the system that allocates the machine's resources to the other programs that you run. The kernel is an essential part of an operating system, but useless by itself; it can only function in the context of a complete operating system. Linux is normally used in combination with the GNU operating system: the whole system is basically GNU with Linux added, or GNU/Linux. All the so-called \"Linux\" distributions are really distributions of GNU/Linux.
";

/// What the language for Googlers is for.
pub const GOOGLERS: &'static str = "The key point here is our programmers are Googlers, they’re not researchers. They’re typically, fairly young, fresh out of school, probably learned Java, maybe learned C or C++, probably learned Python. They’re not capable of understanding a brilliant language but we want to use them to build good software. So, the language that we give them has to be easy for them to understand and easy to adopt.";

/// What Rust has.
pub const RUST: &'static str = "Rust has zero-cost abstractions, move semantics, guaranteed memory safety, threads without data races, trait-based generics, pattern matching, type inference, minimal runtime and efficient C bindings.";

/// What it takes to understand Rick and Morty.
pub const RICK_AND_MORTY: &'static str = "To be fair, you have to have a very high IQ to understand Rick and Morty. The humour is extremely subtle, and without a solid grasp of theoretical physics most of the jokes will go over a typical viewer's head. There's also Rick's nihilistic outlook, which is deftly woven into his characterisation- his personal philosophy draws heavily from Narodnaya Volya literature, for instance. The fans understand this stuff; they have the intellectual capacity to truly appreciate the depths of these jokes, to realise that they're not just funny- they say something deep about LIFE. As a consequence people who dislike Rick & Morty truly ARE idiots- of course they wouldn't appreciate, for instance, the humour in Rick's existential catchphrase \"Wubba Lubba Dub Dub,\" which itself is a cryptic reference to Turgenev's Russian epic Fathers and Sons. I'm smirking right now just imagining one of those addlepated simpletons scratching their heads in confusion as Dan Harmon's genius wit unfolds itself on their television screens. What fools.. how I pity them. 😂";

/// What wears open source maintainers down.
pub const OPEN_SOURCE_MAINTAINERS: &'static str = "Most maintainers start working on open source software because it’s fun and solves a problem they have. Many continue out of a sense of obligation instead of fun and over time this unpaid, increasingly non-fun work grinds them down. When they make a controversial decision and receive abuse for it, their friends and family start to ask them if open source is worth the grief.";

/// What it takes to understand Mr. Robot.
pub const TBF_MR_ROBOT: &'static str = "To be fair, you have to have a very high IQ to understand Mr. Robot. The plot is extremely subtle, and without a solid grasp of psychology most of the twists will go over a typical viewer's head. There's also Mr. Robot's nihilistic outlook, which is deftly woven into his characterisation- his personal philosophy draws heavily from anarchist literature, for instance. The fans understand this stuff; they have the intellectual capacity to truly appreciate the depths of these stories, to realise that they're not just cool- they say something deep about LIFE. As a consequence people who dislike Mr. Robot truly ARE idiots- of course they wouldn't appreciate, for instance, the irony in Elliot's existential dialogue with the viewer - \"Hello, friend\" which itself is a cryptic reference to the psychological phenomenon known as parasocial obsession. I'm smirking right now just imagining one of those addlepated simpletons scratching their heads in confusion as Sam Esmail's genius wit unfolds itself on their television screens. What fools.. how I pity them. 😂

And yes, by the way, i DO have an Fsociety tattoo. And no, you cannot see it. It's for the ladies' eyes only- and even then they have to demonstrate that they're within 5 IQ points of my own (preferably lower) beforehand. Nothin personnel kid 😎
";

/// The built-in copy pasta named `key`.
pub open spec fn builtin_pasta(key: Seq<char>) -> Option<Seq<char>> {
    if key == "linux"@ {
        Some(GNU_PLUS_LINUX@)
    } else if key == "googlers"@ {
        Some(GOOGLERS@)
    } else if key == "rust"@ {
        Some(RUST@)
    } else if key == "rick and morty"@ {
        Some(RICK_AND_MORTY@)
    } else if key == "open source maintainers"@ {
        Some(OPEN_SOURCE_MAINTAINERS@)
    } else if key == "mr. robot"@ {
        Some(TBF_MR_ROBOT@)
    } else {
        None
    }
}

/// The built-in copy pasta named `key`.
pub fn get(key: &str) -> (r: Option<String>)
    ensures
        match r {
            Some(t) => builtin_pasta(key@) == Some(t@),
            None => builtin_pasta(key@) is None,
        },
{
    let k = crate::text::chars_of(key);
    if crate::text::chars_eq_str(&k, "linux") {
        Some(String::from_str(GNU_PLUS_LINUX))
    } else if crate::text::chars_eq_str(&k, "googlers") {
        Some(String::from_str(GOOGLERS))
    } else if crate::text::chars_eq_str(&k, "rust") {
        Some(String::from_str(RUST))
    } else if crate::text::chars_eq_str(&k, "rick and morty") {
        Some(String::from_str(RICK_AND_MORTY))
    } else if crate::text::chars_eq_str(&k, "open source maintainers") {
        Some(String::from_str(OPEN_SOURCE_MAINTAINERS))
    } else if crate::text::chars_eq_str(&k, "mr. robot") {
        Some(String::from_str(TBF_MR_ROBOT))
    } else {
        None
    }
}

} // verus!
