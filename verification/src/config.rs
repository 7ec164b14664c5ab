//! Procfile parsing: one `name: command` service per line.
use vstd::prelude::*;

use crate::text::{
    chars_of, decimal, find_char, lemma_span_until, lines, push_decimal, span_until, trim,
    trim_bounds,
};

verus! {

/// Configuration for a single service from the Procfile.
#[derive(Debug)]
pub struct ServiceConfig {
    pub name: String,
    pub command: String,
}

/// Configuration containing all services from the Procfile.
#[derive(Debug, Clone)]
pub struct Config {
    pub services: Vec<ServiceConfig>,
}

/// The text of one service definition: its name and its command.
pub struct ServiceEntry {
    pub name: Seq<char>,
    pub command: Seq<char>,
}

impl View for ServiceConfig {
    type V = ServiceEntry;

    open spec fn view(&self) -> ServiceEntry {
        ServiceEntry { name: self.name@, command: self.command@ }
    }
}

impl View for Config {
    type V = Seq<ServiceEntry>;

    open spec fn view(&self) -> Seq<ServiceEntry> {
        self.services@.map_values(|s: ServiceConfig| s@)
    }
}

impl Clone for ServiceConfig {
    fn clone(&self) -> (r: Self)
        ensures
            r == *self,
    {
        ServiceConfig { name: self.name.clone(), command: self.command.clone() }
    }
}

/// What one line of a Procfile amounts to.
pub enum LineKind {
    /// An empty line or a comment.
    Blank,
    /// A service definition.
    Entry(ServiceEntry),
    /// A line without a `:`.
    MissingSeparator,
    /// A line whose name, before the first `:`, is empty.
    EmptyName,
    /// A line with this (non-empty) name and an empty command.
    EmptyCommand(Seq<char>),
}

/// Classifies one line: trimmed, it is blank or a comment, or it splits at its
/// first `:` into a trimmed name and a trimmed command.
pub open spec fn classify_line(line: Seq<char>) -> LineKind {
    let t = trim(line);
    if t.len() == 0 || t[0] == '#' {
        LineKind::Blank
    } else {
        let k = span_until(t, ':');
        if k >= t.len() {
            LineKind::MissingSeparator
        } else {
            let name = trim(t.take(k as int));
            let command = trim(t.skip(k as int + 1));
            if name.len() == 0 {
                LineKind::EmptyName
            } else if command.len() == 0 {
                LineKind::EmptyCommand(name)
            } else {
                LineKind::Entry(ServiceEntry { name, command })
            }
        }
    }
}

/// The message for a rejected line with the given (1-based) number.
pub open spec fn line_error(kind: LineKind, line_no: nat) -> Seq<char> {
    match kind {
        LineKind::MissingSeparator => "Invalid configuration on line "@ + decimal(line_no),
        LineKind::EmptyName => "Empty service name on line "@ + decimal(line_no),
        LineKind::EmptyCommand(name) => "Empty command for service '"@ + name + "' on line "@
            + decimal(line_no),
        _ => seq![],
    }
}

/// The services defined by the lines `ls`, in order, or the message for the
/// first line that is rejected.
pub open spec fn parse_lines(ls: Seq<Seq<char>>) -> Result<Seq<ServiceEntry>, Seq<char>>
    decreases ls.len(),
{
    if ls.len() == 0 {
        Ok(seq![])
    } else {
        match parse_lines(ls.drop_last()) {
            Err(e) => Err(e),
            Ok(acc) => match classify_line(ls.last()) {
                LineKind::Blank => Ok(acc),
                LineKind::Entry(entry) => Ok(acc.push(entry)),
                kind => Err(line_error(kind, ls.len())),
            },
        }
    }
}

/// What a Procfile text defines: its services, or an error message, which is
/// also given when no line defines a service.
pub open spec fn parse_procfile(s: Seq<char>) -> Result<Seq<ServiceEntry>, Seq<char>> {
    match parse_lines(lines(s)) {
        Err(e) => Err(e),
        Ok(entries) => if entries.len() == 0 {
            Err("No services found"@)
        } else {
            Ok(entries)
        },
    }
}

pub proof fn lemma_parse_error_persists(ls: Seq<Seq<char>>, k: int)
    requires
        0 <= k <= ls.len(),
        parse_lines(ls.take(k)) is Err,
    ensures
        parse_lines(ls) == parse_lines(ls.take(k)),
    decreases ls.len(),
{
    if k == ls.len() {
        assert(ls.take(k) =~= ls);
    } else {
        assert(ls.drop_last().take(k) =~= ls.take(k));
        lemma_parse_error_persists(ls.drop_last(), k);
    }
}

proof fn lemma_lines_step(s: Seq<char>, pos: int, e: int)
    requires
        0 <= pos < s.len(),
        pos <= e <= s.len(),
        forall|j: int| pos <= j < e ==> s[j] != '\n',
        e == s.len() || s[e] == '\n',
    ensures
        lines(s.skip(pos)) == seq![s.subrange(pos, e)] + lines(
            s.skip(if e < s.len() { e + 1 } else { s.len() as int }),
        ),
{
    let t = s.skip(pos);
    lemma_span_until(t, '\n', e - pos);
    if e == s.len() {
        assert(t =~= s.subrange(pos, e));
        assert(s.skip(s.len() as int) =~= Seq::<char>::empty());
        assert(lines(Seq::<char>::empty()) =~= Seq::<Seq<char>>::empty());
        assert(seq![t] + Seq::<Seq<char>>::empty() =~= seq![t]);
    } else {
        assert(t.take(e - pos) =~= s.subrange(pos, e));
        assert(t.skip(e - pos + 1) =~= s.skip(e + 1));
    }
}

impl Config {
    /// Parses Procfile text into a Config.
    ///
    /// Each line must follow:
    ///     name: command
    pub fn from_str(input: &str) -> (r: Result<Self, String>)
        ensures
            match r {
                Ok(config) => parse_procfile(input@) == Ok::<Seq<ServiceEntry>, Seq<char>>(
                    config@,
                ),
                Err(e) => parse_procfile(input@) == Err::<Seq<ServiceEntry>, Seq<char>>(e@),
            },
    {
        let cs = chars_of(input);
        let n = cs.len();
        let mut services: Vec<ServiceConfig> = Vec::new();
        let mut pos: usize = 0;
        let mut line_no: usize = 0;
        let ghost mut done: Seq<Seq<char>> = seq![];
        assert(cs@.skip(0) =~= cs@);
        assert(done + lines(cs@) =~= lines(cs@));
        assert(services@.map_values(|s: ServiceConfig| s@) =~= Seq::<ServiceEntry>::empty());
        while pos < n
            invariant
                cs@ == input@,
                n == cs.len(),
                pos <= n,
                line_no == done.len(),
                line_no <= pos,
                lines(cs@) == done + lines(cs@.skip(pos as int)),
                parse_lines(done) == Ok::<Seq<ServiceEntry>, Seq<char>>(
                    services@.map_values(|s: ServiceConfig| s@),
                ),
            decreases n - pos,
        {
            let e = find_char(&cs, pos, n, '\n');
            let next = if e < n {
                e + 1
            } else {
                n
            };
            let ghost line = cs@.subrange(pos as int, e as int);
            let ghost prev = done;
            proof {
                lemma_lines_step(cs@, pos as int, e as int);
                done = done.push(line);
                assert(done.drop_last() =~= prev);
                assert(lines(cs@) =~= done + lines(cs@.skip(next as int)));
                assert(lines(cs@).take(done.len() as int) =~= done);
            }
            let ghost views = services@.map_values(|s: ServiceConfig| s@);
            let (lo, hi) = trim_bounds(&cs, pos, e);
            let ghost t = cs@.subrange(lo as int, hi as int);
            if lo < hi && cs[lo] != '#' {
                let k = find_char(&cs, lo, hi, ':');
                if k == hi {
                    let mut msg = String::from_str("Invalid configuration on line ");
                    push_decimal(&mut msg, (line_no + 1) as u64);
                    proof {
                        assert(classify_line(line) == LineKind::MissingSeparator);
                        lemma_parse_error_persists(lines(cs@), done.len() as int);
                    }
                    return Err(msg);
                }
                let (nl, nh) = trim_bounds(&cs, lo, k);
                proof {
                    assert(t.take(k - lo) =~= cs@.subrange(lo as int, k as int));
                    assert(t.skip(k - lo + 1) =~= cs@.subrange(k + 1, hi as int));
                }
                if nl == nh {
                    let mut msg = String::from_str("Empty service name on line ");
                    push_decimal(&mut msg, (line_no + 1) as u64);
                    proof {
                        assert(classify_line(line) == LineKind::EmptyName);
                        lemma_parse_error_persists(lines(cs@), done.len() as int);
                    }
                    return Err(msg);
                }
                let (cl, ch) = trim_bounds(&cs, k + 1, hi);
                let name = input.substring_char(nl, nh);
                if cl == ch {
                    let mut msg = String::from_str("Empty command for service '");
                    msg.append(name);
                    msg.append("' on line ");
                    push_decimal(&mut msg, (line_no + 1) as u64);
                    proof {
                        assert(classify_line(line) == LineKind::EmptyCommand(name@));
                        assert(msg@ =~= line_error(LineKind::EmptyCommand(name@), done.len()));
                        lemma_parse_error_persists(lines(cs@), done.len() as int);
                    }
                    return Err(msg);
                }
                let command = input.substring_char(cl, ch);
                let entry = ServiceConfig {
                    name: String::from_str(name),
                    command: String::from_str(command),
                };
                proof {
                    assert(classify_line(line) == LineKind::Entry(entry@));
                }
                services.push(entry);
                proof {
                    assert(services@.map_values(|s: ServiceConfig| s@) =~= views.push(entry@));
                }
            } else {
                proof {
                    assert(classify_line(line) == LineKind::Blank);
                }
            }
            line_no = line_no + 1;
            pos = next;
        }
        proof {
            assert(cs@.skip(n as int) =~= Seq::<char>::empty());
            assert(lines(Seq::<char>::empty()) =~= Seq::<Seq<char>>::empty());
            assert(done + Seq::<Seq<char>>::empty() =~= done);
        }
        if services.len() == 0 {
            return Err(String::from_str("No services found"));
        }
        Ok(Config { services })
    }
}

} // verus!
