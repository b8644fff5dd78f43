//! Build mode and site configuration.
use vstd::prelude::*;
use vstd::string::StringExecFns;
use crate::utils::push_char;

verus! {

/// Where uploaded files are served from.
pub const FILE_URL: &'static str = "https://file.sfx.xyz";

/// The picture shown for an account without one.
pub const DEFAULT_FILE_URL: &'static str = "https://res.sfx.xyz/images/default.png";

/// The name of the build mode: `debug` for a debug build, `release` otherwise.
pub fn mode(debug_build: bool) -> (r: String)
    ensures
        r@ == (if debug_build { "debug"@ } else { "release"@ }),
{
    let kind = if debug_build { "debug" } else { "release" };
    String::from_str(kind)
}

/// Whether the build mode is `debug`.
pub fn is_debug(debug_build: bool) -> (r: bool)
    ensures
        r == debug_build,
{
    proof {
        reveal_strlit("debug");
        reveal_strlit("release");
    }
    assert("release"@ != "debug"@ ) by {
        assert("release"@.len() != "debug"@.len());
    }
    mode(debug_build) == String::from_str("debug")
}

/// The lines of `s`, split at each line feed; a text without one is a single line.
pub open spec fn split_lines(s: Seq<char>) -> Seq<Seq<char>>
    decreases s.len(),
{
    if s.len() == 0 {
        seq![Seq::empty()]
    } else if s.last() == '\n' {
        split_lines(s.drop_last()).push(Seq::empty())
    } else {
        let lines = split_lines(s.drop_last());
        lines.update(lines.len() - 1, lines.last().push(s.last()))
    }
}

/// A text has at least one line.
proof fn lemma_split_lines_nonempty(s: Seq<char>)
    ensures
        split_lines(s).len() >= 1,
    decreases s.len(),
{
    if s.len() > 0 {
        lemma_split_lines_nonempty(s.drop_last());
    }
}

/// A line split at its first `=` into key and value; `None` without an `=`.
pub open spec fn split_setting(line: Seq<char>) -> Option<(Seq<char>, Seq<char>)>
    decreases line.len(),
{
    if line.len() == 0 {
        None
    } else {
        match split_setting(line.drop_last()) {
            Some((key, value)) => Some((key, value.push(line.last()))),
            None => if line.last() == '=' {
                Some((line.drop_last(), Seq::empty()))
            } else {
                None
            },
        }
    }
}

/// The data source name after reading `line`: its value when the line sets `DSN`.
pub open spec fn apply_line(line: Seq<char>, dsn: Seq<char>) -> Seq<char> {
    match split_setting(line) {
        Some((key, value)) => if key == "DSN"@ {
            value
        } else {
            dsn
        },
        None => dsn,
    }
}

/// The data source name after reading `lines` in order: the last line that
/// sets it wins.
pub open spec fn apply_lines(lines: Seq<Seq<char>>, dsn: Seq<char>) -> Seq<char>
    decreases lines.len(),
{
    if lines.len() == 0 {
        dsn
    } else {
        apply_line(lines.last(), apply_lines(lines.drop_last(), dsn))
    }
}

/// The data source name that `configuration` sets, `dsn` when it sets none.
pub open spec fn configured_dsn(configuration: Seq<char>, dsn: Seq<char>) -> Seq<char> {
    apply_lines(split_lines(configuration), dsn)
}

/// The site's configuration: the text it was read from, and the data source
/// name that the text sets.
#[derive(Debug, Clone)]
pub struct ProximaConfig {
    configuration: String,
    pub dsn: String,
}

impl ProximaConfig {
    /// The configuration text.
    pub closed spec fn configuration_text(&self) -> Seq<char> {
        self.configuration@
    }

    /// The data source name.
    pub closed spec fn dsn_text(&self) -> Seq<char> {
        self.dsn@
    }

    /// A configuration read from `content`, with the data source name that
    /// the content sets, or an empty one.
    pub fn from_configuration(content: String) -> (r: ProximaConfig)
        ensures
            r.configuration_text() == content@,
            r.dsn_text() == configured_dsn(content@, Seq::empty()),
    {
        let mut config = ProximaConfig { configuration: content, dsn: String::new() };
        config.parse_config();
        config
    }

    /// The configuration text.
    pub fn get_configuration(&self) -> (r: String)
        ensures
            r@ == self.configuration_text(),
    {
        self.configuration.clone()
    }

    /// Reads the configuration text line by line: a line `DSN=<value>` sets
    /// the data source name to `<value>`; the last such line wins, and without
    /// one the name is left as it was.
    pub fn parse_config(&mut self)
        ensures
            final(self).configuration_text() == old(self).configuration_text(),
            final(self).dsn_text() == configured_dsn(old(self).configuration_text(), old(self).dsn_text()),
    {
        let text = self.configuration.as_str();
        let ghost start = self.dsn@;
        let mut dsn = self.dsn.clone();
        let mut key = String::new();
        let mut value = String::new();
        let mut seen_eq = false;
        let ghost mut line: Seq<char> = Seq::empty();
        assert(text@.take(0) =~= Seq::<char>::empty());
        for c in it: text.chars()
            invariant
                it.seq() == text@,
                text@ == self.configuration@,
                split_lines(text@.take(it.index())).last() == line,
                dsn@ == apply_lines(split_lines(text@.take(it.index())).drop_last(), start),
                seen_eq ==> split_setting(line) == Some((key@, value@)),
                !seen_eq ==> split_setting(line) is None && key@ == line && value@ == Seq::<char>::empty(),
        {
            let ghost prefix = text@.take(it.index());
            assert(text@.take(it.index() + 1) =~= prefix.push(c));
            assert(prefix.push(c).drop_last() =~= prefix);
            proof {
                lemma_split_lines_nonempty(prefix);
            }
            if c == '\n' {
                if seen_eq && key == String::from_str("DSN") {
                    dsn = value.clone();
                }
                proof {
                    let lines = split_lines(prefix);
                    assert(split_lines(prefix.push(c)).drop_last() =~= lines);
                    assert(lines.drop_last().push(lines.last()) =~= lines);
                }
                key = String::new();
                value = String::new();
                seen_eq = false;
                proof {
                    line = Seq::empty();
                }
            } else {
                proof {
                    let lines = split_lines(prefix);
                    assert(split_lines(prefix.push(c)).drop_last() =~= lines.drop_last());
                    assert(line.push(c).drop_last() =~= line);
                }
                if seen_eq {
                    push_char(&mut value, c);
                } else if c == '=' {
                    seen_eq = true;
                } else {
                    push_char(&mut key, c);
                }
                proof {
                    line = line.push(c);
                }
            }
        }
        if seen_eq && key == String::from_str("DSN") {
            dsn = value.clone();
        }
        proof {
            assert(text@.take(text@.len() as int) =~= text@);
            lemma_split_lines_nonempty(text@);
            let lines = split_lines(text@);
            assert(lines.drop_last().push(lines.last()) =~= lines);
        }
        self.dsn = dsn;
    }
}

} // verus!
