//! What a Procfile line amounts to and what a whole Procfile parses to,
//! stated line by line.
use vstd::prelude::*;

use crate::config::{
    classify_line, lemma_parse_error_persists, parse_lines, parse_procfile, LineKind, ServiceEntry,
};
use crate::laws_text::lemma_span_bounds;
use crate::text::{decimal, lines, span_until, trim};

verus! {

/// A line is blank or a comment exactly when, trimmed, it is empty or begins
/// with `#`. Any other line without `:` is rejected. Every other line splits
/// at its first `:`: the name is the trimmed text before it and the command
/// the trimmed text after it; an empty name, then an empty command, rejects
/// the line, and otherwise it defines the service.
pub proof fn law_line_meaning(line: Seq<char>)
    ensures
        ({
            let t = trim(line);
            &&& (classify_line(line) is Blank) <==> (t.len() == 0 || t[0] == '#')
            &&& (classify_line(line) is MissingSeparator) <==> (t.len() > 0 && t[0] != '#'
                && !t.contains(':'))
            &&& !(classify_line(line) is Blank) && !(classify_line(line) is MissingSeparator)
                ==> exists|k: int|
                {
                    &&& 0 <= k < t.len()
                    &&& t[k] == ':'
                    &&& (forall|j: int| 0 <= j < k ==> t[j] != ':')
                    &&& {
                        let name = trim(t.take(k));
                        let command = trim(t.skip(k + 1));
                        &&& (classify_line(line) is EmptyName) <==> name.len() == 0
                        &&& (classify_line(line) is EmptyCommand) <==> (name.len() > 0
                            && command.len() == 0)
                        &&& (classify_line(line) matches LineKind::EmptyCommand(n) ==> n == name)
                        &&& (classify_line(line) is Entry) <==> (name.len() > 0 && command.len()
                            > 0)
                        &&& (classify_line(line) matches LineKind::Entry(e) ==> e.name == name
                            && e.command == command)
                    }
                }
        }),
{
    let t = trim(line);
    lemma_span_bounds(t, ':');
    let k = span_until(t, ':');
    if t.len() > 0 && t[0] != '#' {
        if t.contains(':') {
            let w = choose|w: int| 0 <= w < t.len() && t[w] == ':';
            assert(k < t.len());
        } else {
            if k < t.len() {
                assert(t[k as int] == ':');
            }
        }
    }
}

/// Whether a line is accepted: blank, a comment or a service.
pub open spec fn is_accepted(line: Seq<char>) -> bool {
    classify_line(line) is Blank || classify_line(line) is Entry
}

/// The service that a line defines (meaningful for a line that defines one).
pub open spec fn entry_of(line: Seq<char>) -> ServiceEntry {
    classify_line(line)->Entry_0
}

/// Lines parse exactly when every line is accepted, and then give the
/// services of the service lines, one per line, in the order of the lines.
pub proof fn law_services_in_line_order(ls: Seq<Seq<char>>)
    ensures
        parse_lines(ls) is Ok <==> (forall|i: int| 0 <= i < ls.len() ==> is_accepted(
            #[trigger] ls[i],
        )),
        parse_lines(ls) is Ok ==> parse_lines(ls)->Ok_0 == ls.filter(
            |l: Seq<char>| classify_line(l) is Entry,
        ).map_values(|l: Seq<char>| entry_of(l)),
    decreases ls.len(),
{
    reveal(Seq::filter);
    if ls.len() > 0 {
        let p = ls.drop_last();
        law_services_in_line_order(p);
        let f = ls.filter(|l: Seq<char>| classify_line(l) is Entry);
        let fp = p.filter(|l: Seq<char>| classify_line(l) is Entry);
        assert forall|i: int| 0 <= i < p.len() implies #[trigger] p[i] == ls[i] by {}
        if !is_accepted(ls.last()) {
            assert(!(forall|i: int| 0 <= i < ls.len() ==> is_accepted(#[trigger] ls[i]))) by {
                assert(!is_accepted(ls[ls.len() - 1]));
            }
        }
        if (forall|i: int| 0 <= i < ls.len() ==> is_accepted(#[trigger] ls[i])) {
            assert(forall|i: int| 0 <= i < p.len() ==> is_accepted(#[trigger] p[i])) by {
                assert forall|i: int| 0 <= i < p.len() implies is_accepted(#[trigger] p[i]) by {
                    assert(p[i] == ls[i]);
                }
            }
            assert(is_accepted(ls[ls.len() - 1]));
            if classify_line(ls.last()) is Entry {
                assert(f == fp.push(ls.last()));
                assert(f.map_values(|l: Seq<char>| entry_of(l)) =~= fp.map_values(
                    |l: Seq<char>| entry_of(l),
                ).push(entry_of(ls.last())));
            } else {
                assert(f == fp);
            }
        } else {
            if forall|i: int| 0 <= i < p.len() ==> is_accepted(#[trigger] p[i]) {
                assert(!is_accepted(ls.last())) by {
                    let i = choose|i: int| 0 <= i < ls.len() && !is_accepted(#[trigger] ls[i]);
                    if i < p.len() {
                        assert(p[i] == ls[i]);
                    }
                }
            }
        }
    }
}

/// The message for the first rejected line, with its line number (counted
/// from 1): a line without `:`, a line with an empty name, or a line whose
/// service `name` has an empty command.
pub proof fn law_first_rejected_line_reported(ls: Seq<Seq<char>>, k: int)
    requires
        0 <= k < ls.len(),
        forall|j: int| 0 <= j < k ==> is_accepted(#[trigger] ls[j]),
        !is_accepted(ls[k]),
    ensures
        parse_lines(ls) == Err::<Seq<ServiceEntry>, Seq<char>>(
            match classify_line(ls[k]) {
                LineKind::MissingSeparator => "Invalid configuration on line "@ + decimal(
                    (k + 1) as nat,
                ),
                LineKind::EmptyName => "Empty service name on line "@ + decimal((k + 1) as nat),
                LineKind::EmptyCommand(name) => "Empty command for service '"@ + name
                    + "' on line "@ + decimal((k + 1) as nat),
                _ => seq![],
            },
        ),
{
    let pre = ls.take(k);
    law_services_in_line_order(pre);
    assert forall|i: int| 0 <= i < pre.len() implies is_accepted(#[trigger] pre[i]) by {
        assert(pre[i] == ls[i]);
    }
    let upto = ls.take(k + 1);
    assert(upto.drop_last() =~= pre);
    assert(upto.last() == ls[k]);
    lemma_parse_error_persists(ls, k + 1);
}

/// A Procfile parses to its services when its lines do and define at least
/// one; lines that are all accepted but define none give "No services found";
/// otherwise the message for the first rejected line is given.
pub proof fn law_procfile_result(s: Seq<char>)
    ensures
        parse_lines(lines(s)) matches Ok(es) && es.len() > 0 ==> parse_procfile(s) == parse_lines(
            lines(s),
        ),
        parse_lines(lines(s)) matches Ok(es) && es.len() == 0 ==> parse_procfile(s) == Err::<
            Seq<ServiceEntry>,
            Seq<char>,
        >("No services found"@),
        parse_lines(lines(s)) is Err ==> parse_procfile(s) == parse_lines(lines(s)),
{
}

} // verus!
