//! The persisted script format: a small, fixed document grammar for one
//! [`List`] value, with a verified serializer and parser and a proof that
//! parsing a rendered list yields the original list.
//!
//! The document is a header naming the policy, followed by the items, each
//! a program name and its argument list. Scalars are double quoted, with
//! backslash escapes for the quote, the backslash, and the newline, carriage
//! return and tab characters, so that every string round-trips.

use vstd::prelude::*;

verus! {

use vstd::string::StringExecFns;
use crate::interactive_list::InteractiveList;
use crate::promiscuous_list::PromiscuousList;
use crate::runitem::{RunItem, RunItemV};
use crate::script::{List, ListV};
use crate::silent_list::SilentList;
use crate::text;

// ---------------------------------------------------------------------------
// The grammar, as spec functions.
// ---------------------------------------------------------------------------

/// The serialization of one character inside a quoted scalar.
pub open spec fn esc_char(c: char) -> Seq<char> {
    if c == '"' {
        seq!['\\', '"']
    } else if c == '\\' {
        seq!['\\', '\\']
    } else if c == '\n' {
        seq!['\\', 'n']
    } else if c == '\r' {
        seq!['\\', 'r']
    } else if c == '\t' {
        seq!['\\', 't']
    } else {
        seq![c]
    }
}

/// The escaped body of a quoted scalar.
pub open spec fn esc(s: Seq<char>) -> Seq<char>
    decreases s.len(),
{
    if s.len() == 0 {
        Seq::empty()
    } else {
        esc_char(s[0]) + esc(s.skip(1))
    }
}

/// A quoted scalar: the escaped body between double quotes.
pub open spec fn quoted(s: Seq<char>) -> Seq<char> {
    seq!['"'] + esc(s) + seq!['"']
}

/// The serialization of a nonempty argument list: one indented entry per
/// argument.
pub open spec fn ser_args(args: Seq<Seq<char>>) -> Seq<char>
    decreases args.len(),
{
    if args.len() == 0 {
        Seq::empty()
    } else {
        "\n        - "@ + quoted(args[0]) + ser_args(args.skip(1))
    }
}

/// The serialization of an argument list: `[]` when empty.
pub open spec fn ser_args_block(args: Seq<Seq<char>>) -> Seq<char> {
    if args.len() == 0 {
        " []"@
    } else {
        ser_args(args)
    }
}

/// The serialization of one run item.
pub open spec fn ser_item(it: RunItemV) -> Seq<char> {
    "\n    - name: "@ + quoted(it.name) + "\n      args:"@ + ser_args_block(it.args)
}

/// The serialization of a nonempty item list.
pub open spec fn ser_items(items: Seq<RunItemV>) -> Seq<char>
    decreases items.len(),
{
    if items.len() == 0 {
        Seq::empty()
    } else {
        ser_item(items[0]) + ser_items(items.skip(1))
    }
}

/// The serialization of an item list: `[]` when empty.
pub open spec fn ser_items_block(items: Seq<RunItemV>) -> Seq<char> {
    if items.len() == 0 {
        " []"@
    } else {
        ser_items(items)
    }
}

/// The serialization of a whole list document: the policy header followed
/// by the items.
pub open spec fn ser_list(l: ListV) -> Seq<char> {
    match l {
        ListV::Promiscuous(items) => "---\nPromiscuous:\n  items:"@ + ser_items_block(items),
        ListV::Silent(items) => "---\nSilent:\n  items:"@ + ser_items_block(items),
        ListV::Interactive(items) => "---\nInteractive:\n  items:"@ + ser_items_block(items),
    }
}

// ---------------------------------------------------------------------------
// The parser, as spec functions: each consumes a prefix and returns the
// parsed value with the remaining characters.
// ---------------------------------------------------------------------------

/// The character stood for by a backslash escape.
pub open spec fn unesc(c: char) -> Option<char> {
    if c == '"' {
        Some('"')
    } else if c == '\\' {
        Some('\\')
    } else if c == 'n' {
        Some('\n')
    } else if c == 'r' {
        Some('\r')
    } else if c == 't' {
        Some('\t')
    } else {
        None
    }
}

/// Parses the body of a quoted scalar up to and over the closing quote.
pub open spec fn sp_qbody(s: Seq<char>) -> Option<(Seq<char>, Seq<char>)>
    decreases s.len(),
{
    if s.len() == 0 {
        None
    } else if s[0] == '"' {
        Some((Seq::empty(), s.skip(1)))
    } else if s[0] == '\\' {
        if s.len() < 2 {
            None
        } else {
            match unesc(s[1]) {
                Some(c) => match sp_qbody(s.skip(2)) {
                    Some(p) => Some((seq![c] + p.0, p.1)),
                    None => None,
                },
                None => None,
            }
        }
    } else {
        match sp_qbody(s.skip(1)) {
            Some(p) => Some((seq![s[0]] + p.0, p.1)),
            None => None,
        }
    }
}

/// Parses a quoted scalar.
pub open spec fn sp_scalar(s: Seq<char>) -> Option<(Seq<char>, Seq<char>)> {
    if s.len() > 0 && s[0] == '"' {
        sp_qbody(s.skip(1))
    } else {
        None
    }
}

/// A successful quoted-scalar parse consumes at least one character.
pub proof fn lemma_sp_qbody_progress(s: Seq<char>)
    ensures
        sp_qbody(s) matches Some(p) ==> p.1.len() < s.len(),
    decreases s.len(),
{
    if s.len() == 0 {
    } else if s[0] == '"' {
    } else if s[0] == '\\' {
        if s.len() >= 2 {
            lemma_sp_qbody_progress(s.skip(2));
        }
    } else {
        lemma_sp_qbody_progress(s.skip(1));
    }
}

/// A successful scalar parse consumes at least one character.
pub proof fn lemma_sp_scalar_progress(s: Seq<char>)
    ensures
        sp_scalar(s) matches Some(p) ==> p.1.len() < s.len(),
{
    if s.len() > 0 && s[0] == '"' {
        lemma_sp_qbody_progress(s.skip(1));
    }
}

/// Parses one or more argument entries.
pub open spec fn sp_args_entries(s: Seq<char>) -> Option<(Seq<Seq<char>>, Seq<char>)>
    decreases s.len() via sp_args_entries_dec
{
    if "\n        - "@.is_prefix_of(s) {
        match sp_scalar(s.skip(11)) {
            Some(p) => if "\n        - "@.is_prefix_of(p.1) {
                match sp_args_entries(p.1) {
                    Some(q) => Some((seq![p.0] + q.0, q.1)),
                    None => None,
                }
            } else {
                Some((seq![p.0], p.1))
            },
            None => None,
        }
    } else {
        None
    }
}

#[via_fn]
proof fn sp_args_entries_dec(s: Seq<char>) {
    reveal_strlit("\n        - ");
    if "\n        - "@.is_prefix_of(s) {
        lemma_sp_scalar_progress(s.skip(11));
    }
}

/// A successful argument-entries parse consumes at least one character.
pub proof fn lemma_sp_args_entries_progress(s: Seq<char>)
    ensures
        sp_args_entries(s) matches Some(p) ==> p.1.len() < s.len(),
    decreases s.len(),
{
    reveal_strlit("\n        - ");
    if "\n        - "@.is_prefix_of(s) {
        lemma_sp_scalar_progress(s.skip(11));
        match sp_scalar(s.skip(11)) {
            Some(p) => {
                if "\n        - "@.is_prefix_of(p.1) {
                    lemma_sp_args_entries_progress(p.1);
                }
            },
            None => {},
        }
    }
}

/// Parses an argument list block: `[]` or one or more entries.
pub open spec fn sp_args_block(s: Seq<char>) -> Option<(Seq<Seq<char>>, Seq<char>)> {
    if " []"@.is_prefix_of(s) {
        Some((Seq::empty(), s.skip(3)))
    } else {
        sp_args_entries(s)
    }
}

/// Parses one run item.
pub open spec fn sp_item(s: Seq<char>) -> Option<(RunItemV, Seq<char>)> {
    if "\n    - name: "@.is_prefix_of(s) {
        match sp_scalar(s.skip(13)) {
            Some(p) => if "\n      args:"@.is_prefix_of(p.1) {
                match sp_args_block(p.1.skip(12)) {
                    Some(q) => Some((RunItemV { name: p.0, args: q.0 }, q.1)),
                    None => None,
                }
            } else {
                None
            },
            None => None,
        }
    } else {
        None
    }
}

/// A successful item parse consumes at least one character.
pub proof fn lemma_sp_item_progress(s: Seq<char>)
    ensures
        sp_item(s) matches Some(p) ==> p.1.len() < s.len(),
{
    reveal_strlit("\n    - name: ");
    reveal_strlit("\n      args:");
    reveal_strlit(" []");
    if "\n    - name: "@.is_prefix_of(s) {
        lemma_sp_scalar_progress(s.skip(13));
        match sp_scalar(s.skip(13)) {
            Some(p) => {
                if "\n      args:"@.is_prefix_of(p.1) {
                    lemma_sp_args_entries_progress(p.1.skip(12));
                }
            },
            None => {},
        }
    }
}

/// Parses one or more item entries.
pub open spec fn sp_items_entries(s: Seq<char>) -> Option<(Seq<RunItemV>, Seq<char>)>
    decreases s.len() via sp_items_entries_dec
{
    if "\n    - name: "@.is_prefix_of(s) {
        match sp_item(s) {
            Some(p) => if "\n    - name: "@.is_prefix_of(p.1) {
                match sp_items_entries(p.1) {
                    Some(q) => Some((seq![p.0] + q.0, q.1)),
                    None => None,
                }
            } else {
                Some((seq![p.0], p.1))
            },
            None => None,
        }
    } else {
        None
    }
}

#[via_fn]
proof fn sp_items_entries_dec(s: Seq<char>) {
    if "\n    - name: "@.is_prefix_of(s) {
        lemma_sp_item_progress(s);
    }
}

/// Parses an item list block: `[]` or one or more entries.
pub open spec fn sp_items_block(s: Seq<char>) -> Option<(Seq<RunItemV>, Seq<char>)> {
    if " []"@.is_prefix_of(s) {
        Some((Seq::empty(), s.skip(3)))
    } else {
        sp_items_entries(s)
    }
}

/// Parses a whole list document; the document must be consumed exactly.
pub open spec fn sp_doc(s: Seq<char>) -> Option<ListV> {
    if "---\nPromiscuous:\n  items:"@.is_prefix_of(s) {
        match sp_items_block(s.skip(25)) {
            Some(p) => if p.1.len() == 0 {
                Some(ListV::Promiscuous(p.0))
            } else {
                None
            },
            None => None,
        }
    } else if "---\nSilent:\n  items:"@.is_prefix_of(s) {
        match sp_items_block(s.skip(20)) {
            Some(p) => if p.1.len() == 0 {
                Some(ListV::Silent(p.0))
            } else {
                None
            },
            None => None,
        }
    } else if "---\nInteractive:\n  items:"@.is_prefix_of(s) {
        match sp_items_block(s.skip(25)) {
            Some(p) => if p.1.len() == 0 {
                Some(ListV::Interactive(p.0))
            } else {
                None
            },
            None => None,
        }
    } else {
        None
    }
}

// ---------------------------------------------------------------------------
// The serializer.
// ---------------------------------------------------------------------------

/// `esc` distributes over concatenation.
proof fn lemma_esc_concat(a: Seq<char>, b: Seq<char>)
    ensures
        esc(a + b) == esc(a) + esc(b),
    decreases a.len(),
{
    if a.len() == 0 {
        assert(a + b =~= b);
        assert(esc(a) + esc(b) =~= esc(b));
    } else {
        assert((a + b)[0] == a[0]);
        assert((a + b).len() > 0);
        assert((a + b).skip(1) =~= a.skip(1) + b);
        lemma_esc_concat(a.skip(1), b);
        assert(esc(a + b) =~= esc(a) + esc(b));
    }
}

/// `esc` of a single character is its escape.
proof fn lemma_esc_singleton(c: char)
    ensures
        esc(seq![c]) == esc_char(c),
{
    assert(seq![c].len() == 1);
    assert(seq![c][0] == c);
    assert(seq![c].skip(1) =~= Seq::<char>::empty());
    assert(esc(Seq::<char>::empty()) == Seq::<char>::empty());
    assert(esc(seq![c]) =~= esc_char(c) + Seq::<char>::empty());
    assert(esc_char(c) + Seq::<char>::empty() =~= esc_char(c));
}

/// `ser_args` of a single argument is its entry.
proof fn lemma_ser_args_singleton(a: Seq<char>)
    ensures
        ser_args(seq![a]) == "\n        - "@ + quoted(a),
{
    assert(seq![a].len() == 1);
    assert(seq![a][0] == a);
    assert(seq![a].skip(1) =~= Seq::<Seq<char>>::empty());
    assert(ser_args(Seq::<Seq<char>>::empty()) == Seq::<char>::empty());
    assert(ser_args(seq![a]) =~= "\n        - "@ + quoted(a) + Seq::<char>::empty());
    assert("\n        - "@ + quoted(a) + Seq::<char>::empty() =~= "\n        - "@ + quoted(a));
}

/// `ser_items` of a single item is its serialization.
proof fn lemma_ser_items_singleton(it: RunItemV)
    ensures
        ser_items(seq![it]) == ser_item(it),
{
    assert(seq![it].len() == 1);
    assert(seq![it][0] == it);
    assert(seq![it].skip(1) =~= Seq::<RunItemV>::empty());
    assert(ser_items(Seq::<RunItemV>::empty()) == Seq::<char>::empty());
    assert(ser_items(seq![it]) =~= ser_item(it) + Seq::<char>::empty());
    assert(ser_item(it) + Seq::<char>::empty() =~= ser_item(it));
}

/// Appends `quoted(s@)` to `out`.
fn push_quoted(out: &mut String, s: &str)
    ensures
        final(out)@ == old(out)@ + quoted(s@),
{
    out.push('"');
    let cs = text::chars_of(s);
    let mut k: usize = 0;
    while k < cs.len()
        invariant
            k <= cs.len(),
            cs@ == s@,
            out@ == old(out)@ + seq!['"'] + esc(s@.take(k as int)),
        decreases cs.len() - k,
    {
        let c = cs[k];
        if c == '"' {
            out.push('\\');
            out.push('"');
        } else if c == '\\' {
            out.push('\\');
            out.push('\\');
        } else if c == '\n' {
            out.push('\\');
            out.push('n');
        } else if c == '\r' {
            out.push('\\');
            out.push('r');
        } else if c == '\t' {
            out.push('\\');
            out.push('t');
        } else {
            out.push(c);
        }
        proof {
            let kk = k as int;
            assert(s@.take(kk + 1) =~= s@.take(kk) + seq![s@[kk]]);
            lemma_esc_concat(s@.take(kk), seq![s@[kk]]);
            lemma_esc_singleton(s@[kk]);
            assert(out@ =~= old(out)@ + seq!['"'] + esc(s@.take(kk + 1)));
        }
        k += 1;
    }
    out.push('"');
    proof {
        assert(s@.take(s@.len() as int) =~= s@);
        assert(out@ =~= old(out)@ + quoted(s@));
    }
}

/// Appends the argument list block for `args` to `out`.
fn push_args_block(out: &mut String, args: &Vec<String>)
    ensures
        final(out)@ == old(out)@ + ser_args_block(args.deep_view()),
{
    proof {
        assert(args.deep_view().len() == args@.len());
    }
    if args.len() == 0 {
        out.append(" []");
        return ;
    }
    let mut j: usize = 0;
    while j < args.len()
        invariant
            j <= args.len(),
            args.deep_view().len() == args@.len(),
            out@ == old(out)@ + ser_args(args.deep_view().take(j as int)),
        decreases args.len() - j,
    {
        out.append("\n        - ");
        push_quoted(out, args[j].as_str());
        proof {
            let dv = args.deep_view();
            let jj = j as int;
            assert(dv[jj] == args@[jj].deep_view());
            assert(dv.take(jj + 1) =~= dv.take(jj) + seq![dv[jj]]);
            lemma_ser_args_concat(dv.take(jj), seq![dv[jj]]);
            lemma_ser_args_singleton(dv[jj]);
            assert(out@ =~= old(out)@ + ser_args(dv.take(jj + 1)));
        }
        j += 1;
    }
    proof {
        assert(args.deep_view().take(args@.len() as int) =~= args.deep_view());
    }
}

/// `ser_args` distributes over concatenation.
proof fn lemma_ser_args_concat(a: Seq<Seq<char>>, b: Seq<Seq<char>>)
    ensures
        ser_args(a + b) == ser_args(a) + ser_args(b),
    decreases a.len(),
{
    if a.len() == 0 {
        assert(a + b =~= b);
        assert(ser_args(a) + ser_args(b) =~= ser_args(b));
    } else {
        assert((a + b)[0] == a[0]);
        assert((a + b).skip(1) =~= a.skip(1) + b);
        lemma_ser_args_concat(a.skip(1), b);
        assert(ser_args(a + b) =~= ser_args(a) + ser_args(b));
    }
}

/// `ser_items` distributes over concatenation.
proof fn lemma_ser_items_concat(a: Seq<RunItemV>, b: Seq<RunItemV>)
    ensures
        ser_items(a + b) == ser_items(a) + ser_items(b),
    decreases a.len(),
{
    if a.len() == 0 {
        assert(a + b =~= b);
        assert(ser_items(a) + ser_items(b) =~= ser_items(b));
    } else {
        assert((a + b)[0] == a[0]);
        assert((a + b).skip(1) =~= a.skip(1) + b);
        lemma_ser_items_concat(a.skip(1), b);
        assert(ser_items(a + b) =~= ser_items(a) + ser_items(b));
    }
}

/// Appends the item list block for `items` to `out`.
fn push_items_block(out: &mut String, items: &Vec<RunItem>)
    ensures
        final(out)@ == old(out)@ + ser_items_block(items.deep_view()),
{
    proof {
        assert(items.deep_view().len() == items@.len());
    }
    if items.len() == 0 {
        out.append(" []");
        return ;
    }
    let mut j: usize = 0;
    while j < items.len()
        invariant
            j <= items.len(),
            items.deep_view().len() == items@.len(),
            out@ == old(out)@ + ser_items(items.deep_view().take(j as int)),
        decreases items.len() - j,
    {
        let it = &items[j];
        out.append("\n    - name: ");
        push_quoted(out, it.name.as_str());
        out.append("\n      args:");
        push_args_block(out, &it.args);
        proof {
            let dv = items.deep_view();
            let jj = j as int;
            assert(dv[jj] == items@[jj].deep_view());
            assert(dv.take(jj + 1) =~= dv.take(jj) + seq![dv[jj]]);
            lemma_ser_items_concat(dv.take(jj), seq![dv[jj]]);
            lemma_ser_items_singleton(dv[jj]);
            assert(out@ =~= old(out)@ + ser_items(dv.take(jj + 1)));
        }
        j += 1;
    }
    proof {
        assert(items.deep_view().take(items@.len() as int) =~= items.deep_view());
    }
}

/// Renders a list as its script document.
pub fn render_list(l: &List) -> (s: String)
    ensures
        s@ == ser_list(l@),
{
    match l {
        List::Promiscuous(pl) => {
            let mut out = String::from_str("---\nPromiscuous:\n  items:");
            push_items_block(&mut out, &pl.items);
            out
        },
        List::Silent(sl) => {
            let mut out = String::from_str("---\nSilent:\n  items:");
            push_items_block(&mut out, &sl.items);
            out
        },
        List::Interactive(il) => {
            let mut out = String::from_str("---\nInteractive:\n  items:");
            push_items_block(&mut out, &il.items);
            out
        },
    }
}

// ---------------------------------------------------------------------------
// The executable parser: each function parses from position `i` of the
// character vector and reports exactly what the spec parser says about the
// remaining characters.
// ---------------------------------------------------------------------------

/// Whether `p` is a prefix of the characters from position `i` on.
fn ex_prefix(v: &Vec<char>, i: usize, p: &str) -> (b: bool)
    requires
        i <= v.len(),
    ensures
        b == p@.is_prefix_of(v@.skip(i as int)),
{
    let n: usize = p.unicode_len();
    if n > v.len() - i {
        return false;
    }
    let mut k: usize = 0;
    while k < n
        invariant
            k <= n,
            n == p@.len(),
            i + n <= v.len(),
            forall|l: int| 0 <= l < k ==> p@[l] == v@[i + l],
        decreases n - k,
    {
        if v[i + k] != p.get_char(k) {
            proof {
                assert(v@.skip(i as int)[k as int] == v@[i + k]);
                assert(!p@.is_prefix_of(v@.skip(i as int))) by {
                    if p@.is_prefix_of(v@.skip(i as int)) {
                        assert(p@[k as int] == v@.skip(i as int).subrange(0, p@.len() as int)[
                            k as int
                        ]);
                    }
                }
            }
            return false;
        }
        k += 1;
    }
    proof {
        assert(p@ =~= v@.skip(i as int).subrange(0, p@.len() as int));
    }
    true
}

fn unesc_char(c: char) -> (r: Option<char>)
    ensures
        r == unesc(c),
{
    if c == '"' {
        Some('"')
    } else if c == '\\' {
        Some('\\')
    } else if c == 'n' {
        Some('\n')
    } else if c == 'r' {
        Some('\r')
    } else if c == 't' {
        Some('\t')
    } else {
        None
    }
}

/// Parses the body of a quoted scalar starting at `i` (just past the
/// opening quote).
fn ex_qbody(v: &Vec<char>, i: usize) -> (r: Option<(Vec<char>, usize)>)
    requires
        i <= v.len(),
    ensures
        match r {
            Some(p) => i <= p.1 && p.1 <= v.len() && sp_qbody(v@.skip(i as int)) == Some(
                (p.0@, v@.skip(p.1 as int)),
            ),
            None => sp_qbody(v@.skip(i as int)) is None,
        },
{
    let mut j: usize = i;
    let mut acc: Vec<char> = Vec::new();
    loop
        invariant
            i <= j && j <= v.len(),
            (match sp_qbody(v@.skip(j as int)) {
                Some(q) => sp_qbody(v@.skip(i as int)) == Some((acc@ + q.0, q.1)),
                None => sp_qbody(v@.skip(i as int)) is None,
            }),
        decreases v.len() - j,
    {
        if j == v.len() {
            return None;
        }
        let ghost jj = j as int;
        let c = v[j];
        proof {
            assert(v@.skip(jj)[0] == c);
        }
        if c == '"' {
            proof {
                assert(v@.skip(jj).skip(1) =~= v@.skip(jj + 1));
                assert(acc@ + Seq::<char>::empty() =~= acc@);
            }
            return Some((acc, j + 1));
        }
        if c == '\\' {
            if j + 1 == v.len() {
                return None;
            }
            let d = v[j + 1];
            proof {
                assert(v@.skip(jj)[1] == d);
                assert(v@.skip(jj).skip(2) =~= v@.skip(jj + 2));
            }
            match unesc_char(d) {
                None => {
                    return None;
                },
                Some(e) => {
                    let ghost acc0 = acc@;
                    acc.push(e);
                    proof {
                        assert(acc@ =~= acc0 + seq![e]);
                        match sp_qbody(v@.skip(jj + 2)) {
                            Some(q) => {
                                assert(acc0 + (seq![e] + q.0) =~= acc@ + q.0);
                            },
                            None => {},
                        }
                    }
                    j += 2;
                },
            }
        } else {
            let ghost acc0 = acc@;
            proof {
                assert(v@.skip(jj).skip(1) =~= v@.skip(jj + 1));
            }
            acc.push(c);
            proof {
                assert(acc@ =~= acc0 + seq![c]);
                match sp_qbody(v@.skip(jj + 1)) {
                    Some(q) => {
                        assert(acc0 + (seq![c] + q.0) =~= acc@ + q.0);
                    },
                    None => {},
                }
            }
            j += 1;
        }
    }
}

/// Parses a quoted scalar starting at `i`.
fn ex_scalar(v: &Vec<char>, i: usize) -> (r: Option<(Vec<char>, usize)>)
    requires
        i <= v.len(),
    ensures
        match r {
            Some(p) => i < p.1 && p.1 <= v.len() && sp_scalar(v@.skip(i as int)) == Some(
                (p.0@, v@.skip(p.1 as int)),
            ),
            None => sp_scalar(v@.skip(i as int)) is None,
        },
{
    if i == v.len() {
        return None;
    }
    let c = v[i];
    proof {
        assert(v@.skip(i as int)[0] == c);
    }
    if c != '"' {
        return None;
    }
    proof {
        assert(v@.skip(i as int).skip(1) =~= v@.skip(i as int + 1));
    }
    match ex_qbody(v, i + 1) {
        Some((val, j)) => Some((val, j)),
        None => None,
    }
}

/// Parses one or more argument entries starting at `i`.
fn ex_args_entries(v: &Vec<char>, i: usize) -> (r: Option<(Vec<String>, usize)>)
    requires
        i <= v.len(),
    ensures
        match r {
            Some(p) => i < p.1 && p.1 <= v.len() && sp_args_entries(v@.skip(i as int)) == Some(
                (p.0.deep_view(), v@.skip(p.1 as int)),
            ),
            None => sp_args_entries(v@.skip(i as int)) is None,
        },
{
    if !ex_prefix(v, i, "\n        - ") {
        return None;
    }
    let mut acc: Vec<String> = Vec::new();
    let mut cur: usize = i;
    loop
        invariant
            i <= cur && cur <= v.len(),
            "\n        - "@.is_prefix_of(v@.skip(cur as int)),
            (match sp_args_entries(v@.skip(cur as int)) {
                Some(q) => sp_args_entries(v@.skip(i as int)) == Some(
                    (acc.deep_view() + q.0, q.1),
                ),
                None => sp_args_entries(v@.skip(i as int)) is None,
            }),
        decreases v.len() - cur,
    {
        let ghost cc = cur as int;
        proof {
            reveal_strlit("\n        - ");
            assert(v@.skip(cc).len() >= 11);
            assert(v@.skip(cc).skip(11) =~= v@.skip(cc + 11));
        }
        match ex_scalar(v, cur + 11) {
            None => {
                return None;
            },
            Some((val, j)) => {
                let s = text::string_of(&val);
                let has_more = ex_prefix(v, j, "\n        - ");
                let ghost acc0 = acc.deep_view();
                acc.push(s);
                proof {
                    assert(acc.deep_view() =~= acc0 + seq![val@]);
                }
                if has_more {
                    proof {
                        match sp_args_entries(v@.skip(j as int)) {
                            Some(q) => {
                                assert(acc0 + (seq![val@] + q.0) =~= acc.deep_view() + q.0);
                            },
                            None => {},
                        }
                    }
                    cur = j;
                } else {
                    proof {
                        assert(acc0 + seq![val@] =~= acc.deep_view());
                    }
                    return Some((acc, j));
                }
            },
        }
    }
}

/// Parses an argument list block starting at `i`.
fn ex_args_block(v: &Vec<char>, i: usize) -> (r: Option<(Vec<String>, usize)>)
    requires
        i <= v.len(),
    ensures
        match r {
            Some(p) => i < p.1 && p.1 <= v.len() && sp_args_block(v@.skip(i as int)) == Some(
                (p.0.deep_view(), v@.skip(p.1 as int)),
            ),
            None => sp_args_block(v@.skip(i as int)) is None,
        },
{
    if ex_prefix(v, i, " []") {
        let e: Vec<String> = Vec::new();
        proof {
            reveal_strlit(" []");
            assert(v@.skip(i as int).skip(3) =~= v@.skip(i as int + 3));
            assert(e.deep_view() =~= Seq::<Seq<char>>::empty());
        }
        return Some((e, i + 3));
    }
    ex_args_entries(v, i)
}

/// Parses one run item starting at `i`.
fn ex_item(v: &Vec<char>, i: usize) -> (r: Option<(RunItem, usize)>)
    requires
        i <= v.len(),
    ensures
        match r {
            Some(p) => i < p.1 && p.1 <= v.len() && sp_item(v@.skip(i as int)) == Some(
                (p.0@, v@.skip(p.1 as int)),
            ),
            None => sp_item(v@.skip(i as int)) is None,
        },
{
    if !ex_prefix(v, i, "\n    - name: ") {
        return None;
    }
    proof {
        reveal_strlit("\n    - name: ");
        assert(v@.skip(i as int).skip(13) =~= v@.skip(i as int + 13));
    }
    match ex_scalar(v, i + 13) {
        None => None,
        Some((nm, j)) => {
            if !ex_prefix(v, j, "\n      args:") {
                return None;
            }
            proof {
                reveal_strlit("\n      args:");
                assert(v@.skip(j as int).skip(12) =~= v@.skip(j as int + 12));
            }
            match ex_args_block(v, j + 12) {
                None => None,
                Some((args, j2)) => {
                    let name = text::string_of(&nm);
                    let it = RunItem::new(name, args);
                    Some((it, j2))
                },
            }
        },
    }
}

/// Parses one or more item entries starting at `i`.
fn ex_items_entries(v: &Vec<char>, i: usize) -> (r: Option<(Vec<RunItem>, usize)>)
    requires
        i <= v.len(),
    ensures
        match r {
            Some(p) => i < p.1 && p.1 <= v.len() && sp_items_entries(v@.skip(i as int)) == Some(
                (p.0.deep_view(), v@.skip(p.1 as int)),
            ),
            None => sp_items_entries(v@.skip(i as int)) is None,
        },
{
    if !ex_prefix(v, i, "\n    - name: ") {
        return None;
    }
    let mut acc: Vec<RunItem> = Vec::new();
    let mut cur: usize = i;
    loop
        invariant
            i <= cur && cur <= v.len(),
            "\n    - name: "@.is_prefix_of(v@.skip(cur as int)),
            (match sp_items_entries(v@.skip(cur as int)) {
                Some(q) => sp_items_entries(v@.skip(i as int)) == Some(
                    (acc.deep_view() + q.0, q.1),
                ),
                None => sp_items_entries(v@.skip(i as int)) is None,
            }),
        decreases v.len() - cur,
    {
        match ex_item(v, cur) {
            None => {
                return None;
            },
            Some((it, j)) => {
                let has_more = ex_prefix(v, j, "\n    - name: ");
                let ghost acc0 = acc.deep_view();
                let ghost itv = it@;
                acc.push(it);
                proof {
                    assert(acc.deep_view() =~= acc0 + seq![itv]);
                }
                if has_more {
                    proof {
                        match sp_items_entries(v@.skip(j as int)) {
                            Some(q) => {
                                assert(acc0 + (seq![itv] + q.0) =~= acc.deep_view() + q.0);
                            },
                            None => {},
                        }
                    }
                    cur = j;
                } else {
                    proof {
                        assert(acc0 + seq![itv] =~= acc.deep_view());
                    }
                    return Some((acc, j));
                }
            },
        }
    }
}

/// Parses an item list block starting at `i`.
fn ex_items_block(v: &Vec<char>, i: usize) -> (r: Option<(Vec<RunItem>, usize)>)
    requires
        i <= v.len(),
    ensures
        match r {
            Some(p) => i < p.1 && p.1 <= v.len() && sp_items_block(v@.skip(i as int)) == Some(
                (p.0.deep_view(), v@.skip(p.1 as int)),
            ),
            None => sp_items_block(v@.skip(i as int)) is None,
        },
{
    if ex_prefix(v, i, " []") {
        let e: Vec<RunItem> = Vec::new();
        proof {
            reveal_strlit(" []");
            assert(v@.skip(i as int).skip(3) =~= v@.skip(i as int + 3));
            assert(e.deep_view() =~= Seq::<RunItemV>::empty());
        }
        return Some((e, i + 3));
    }
    ex_items_entries(v, i)
}

/// The message reported for a document that does not parse.
pub open spec fn spec_parse_error_message() -> Seq<char> {
    "fail to parse script: the document does not describe a run list"@
}

fn parse_error_message() -> (m: String)
    ensures
        m@ == spec_parse_error_message(),
{
    String::from_str("fail to parse script: the document does not describe a run list")
}

/// Parses a script document into the list it describes, or reports why the
/// document is not one. The result is `Ok` exactly when the document
/// belongs to the grammar.
pub fn parse_list(text: &str) -> (r: Result<List, String>)
    ensures
        match sp_doc(text@) {
            Some(lv) => r matches Ok(l) && l@ == lv,
            None => r matches Err(m) && m@ == spec_parse_error_message(),
        },
{
    let v = text::chars_of(text);
    proof {
        assert(v@.skip(0) =~= text@);
    }
    if ex_prefix(&v, 0, "---\nPromiscuous:\n  items:") {
        proof {
            reveal_strlit("---\nPromiscuous:\n  items:");
            assert(v@.skip(0).skip(25) =~= v@.skip(25));
        }
        match ex_items_block(&v, 25) {
            Some((items, j)) => {
                if j == v.len() {
                    proof {
                        assert(v@.skip(j as int).len() == 0);
                    }
                    return Ok(List::Promiscuous(PromiscuousList::new(items)));
                }
                return Err(parse_error_message());
            },
            None => {
                return Err(parse_error_message());
            },
        }
    }
    if ex_prefix(&v, 0, "---\nSilent:\n  items:") {
        proof {
            reveal_strlit("---\nSilent:\n  items:");
            assert(v@.skip(0).skip(20) =~= v@.skip(20));
        }
        match ex_items_block(&v, 20) {
            Some((items, j)) => {
                if j == v.len() {
                    proof {
                        assert(v@.skip(j as int).len() == 0);
                    }
                    return Ok(List::Silent(SilentList::new(items)));
                }
                return Err(parse_error_message());
            },
            None => {
                return Err(parse_error_message());
            },
        }
    }
    if ex_prefix(&v, 0, "---\nInteractive:\n  items:") {
        proof {
            reveal_strlit("---\nInteractive:\n  items:");
            assert(v@.skip(0).skip(25) =~= v@.skip(25));
        }
        match ex_items_block(&v, 25) {
            Some((items, j)) => {
                if j == v.len() {
                    proof {
                        assert(v@.skip(j as int).len() == 0);
                    }
                    return Ok(List::Interactive(InteractiveList::new(items)));
                }
                return Err(parse_error_message());
            },
            None => {
                return Err(parse_error_message());
            },
        }
    }
    Err(parse_error_message())
}

// ---------------------------------------------------------------------------
// Round trip: parsing a rendered document yields the original value.
// ---------------------------------------------------------------------------

/// Splitting a concatenation at the length of its first part.
proof fn lemma_concat_parts(a: Seq<char>, b: Seq<char>)
    ensures
        (a + b).skip(a.len() as int) == b,
        a.is_prefix_of(a + b),
{
    assert((a + b).skip(a.len() as int) =~= b);
    assert((a + b).subrange(0, a.len() as int) =~= a);
}

/// A sequence that differs from `p` at some index below `p`'s length does
/// not have `p` as a prefix.
proof fn lemma_not_prefix_at(p: Seq<char>, s: Seq<char>, k: int)
    requires
        0 <= k < p.len(),
        k < s.len(),
        p[k] != s[k],
    ensures
        !p.is_prefix_of(s),
{
    if p.is_prefix_of(s) {
        assert(p[k] == s.subrange(0, p.len() as int)[k]);
    }
}

/// Parsing the escaped body of `x` (with its closing quote) yields `x`.
proof fn lemma_sp_qbody_round(x: Seq<char>, rest: Seq<char>)
    ensures
        sp_qbody(esc(x) + seq!['"'] + rest) == Some((x, rest)),
    decreases x.len(),
{
    let s = esc(x) + seq!['"'] + rest;
    if x.len() == 0 {
        assert(s =~= seq!['"'] + rest);
        assert(s[0] == '"');
        assert(s.skip(1) =~= rest);
        assert(x =~= Seq::<char>::empty());
    } else {
        let c = x[0];
        let x1 = x.skip(1);
        assert(esc(x) == esc_char(c) + esc(x1));
        lemma_sp_qbody_round(x1, rest);
        let s1 = esc(x1) + seq!['"'] + rest;
        if c == '"' || c == '\\' || c == '\n' || c == '\r' || c == '\t' {
            let d: char = if c == '"' {
                '"'
            } else if c == '\\' {
                '\\'
            } else if c == '\n' {
                'n'
            } else if c == '\r' {
                'r'
            } else {
                't'
            };
            assert(esc_char(c) =~= seq!['\\', d]);
            assert(s =~= seq!['\\', d] + s1);
            assert(s[0] == '\\');
            assert(s[1] == d);
            assert(unesc(d) == Some(c));
            assert(s.skip(2) =~= s1);
            assert(seq![c] + x1 =~= x);
            assert(sp_qbody(s) == Some((x, rest)));
        } else {
            assert(esc_char(c) =~= seq![c]);
            assert(s =~= seq![c] + s1);
            assert(s[0] == c);
            assert(s.skip(1) =~= s1);
            assert(seq![c] + x1 =~= x);
            assert(sp_qbody(s) == Some((x, rest)));
        }
    }
}

/// Parsing a quoted scalar yields the original string.
proof fn lemma_sp_scalar_round(x: Seq<char>, rest: Seq<char>)
    ensures
        sp_scalar(quoted(x) + rest) == Some((x, rest)),
{
    let s = quoted(x) + rest;
    assert(s =~= seq!['"'] + (esc(x) + seq!['"'] + rest));
    assert(s.len() > 0);
    assert(s[0] == '"');
    assert(s.skip(1) =~= esc(x) + seq!['"'] + rest);
    lemma_sp_qbody_round(x, rest);
}

/// Parsing serialized argument entries yields the original arguments, as
/// long as what follows does not itself look like another entry.
proof fn lemma_sp_args_entries_round(args: Seq<Seq<char>>, rest: Seq<char>)
    requires
        args.len() >= 1,
        !"\n        - "@.is_prefix_of(rest),
    ensures
        sp_args_entries(ser_args(args) + rest) == Some((args, rest)),
    decreases args.len(),
{
    reveal_strlit("\n        - ");
    let a0 = args[0];
    let args1 = args.skip(1);
    let s = ser_args(args) + rest;
    assert(ser_args(args) == "\n        - "@ + quoted(a0) + ser_args(args1));
    let tail = quoted(a0) + (ser_args(args1) + rest);
    assert(s =~= "\n        - "@ + tail);
    lemma_concat_parts("\n        - "@, tail);
    assert(s.skip(11) == tail);
    lemma_sp_scalar_round(a0, ser_args(args1) + rest);
    assert(tail =~= quoted(a0) + (ser_args(args1) + rest));
    if args1.len() == 0 {
        assert(ser_args(args1) + rest =~= rest);
        assert(seq![a0] =~= args);
        assert(sp_args_entries(s) == Some((args, rest)));
    } else {
        let r1 = ser_args(args1) + rest;
        assert(ser_args(args1) == "\n        - "@ + quoted(args1[0]) + ser_args(args1.skip(1)));
        assert(r1 =~= "\n        - "@ + (quoted(args1[0]) + (ser_args(args1.skip(1)) + rest)));
        lemma_concat_parts(
            "\n        - "@,
            quoted(args1[0]) + (ser_args(args1.skip(1)) + rest),
        );
        lemma_sp_args_entries_round(args1, rest);
        assert(seq![a0] + args1 =~= args);
        assert(sp_args_entries(s) == Some((args, rest)));
    }
}

/// Parsing a serialized argument block yields the original arguments.
proof fn lemma_sp_args_block_round(args: Seq<Seq<char>>, rest: Seq<char>)
    requires
        args.len() > 0 ==> !"\n        - "@.is_prefix_of(rest),
    ensures
        sp_args_block(ser_args_block(args) + rest) == Some((args, rest)),
{
    reveal_strlit(" []");
    reveal_strlit("\n        - ");
    if args.len() == 0 {
        let s = " []"@ + rest;
        lemma_concat_parts(" []"@, rest);
        assert(s.skip(3) == rest);
        assert(args =~= Seq::<Seq<char>>::empty());
    } else {
        let s = ser_args(args) + rest;
        assert(ser_args(args) == "\n        - "@ + quoted(args[0]) + ser_args(args.skip(1)));
        assert(s =~= "\n        - "@ + (quoted(args[0]) + (ser_args(args.skip(1)) + rest)));
        assert(s[0] == '\n');
        assert(" []"@[0] == ' ');
        lemma_not_prefix_at(" []"@, s, 0);
        lemma_sp_args_entries_round(args, rest);
    }
}

/// A serialized item followed by anything starts like an item entry and
/// not like an argument entry.
proof fn lemma_item_starts(it: RunItemV, tail: Seq<char>)
    ensures
        "\n    - name: "@.is_prefix_of(ser_item(it) + tail),
        !"\n        - "@.is_prefix_of(ser_item(it) + tail),
        (ser_item(it) + tail).skip(13) == quoted(it.name) + ("\n      args:"@ + ser_args_block(
            it.args,
        ) + tail),
{
    reveal_strlit("\n    - name: ");
    reveal_strlit("\n        - ");
    let x = quoted(it.name) + ("\n      args:"@ + ser_args_block(it.args) + tail);
    assert(ser_item(it) + tail =~= "\n    - name: "@ + x);
    lemma_concat_parts("\n    - name: "@, x);
    assert((ser_item(it) + tail)[5] == "\n    - name: "@[5]);
    assert("\n    - name: "@[5] == '-');
    assert("\n        - "@[5] == ' ');
    lemma_not_prefix_at("\n        - "@, ser_item(it) + tail, 5);
}

/// Parsing a serialized item yields the original item, as long as what
/// follows does not look like one of its argument entries.
proof fn lemma_sp_item_round(it: RunItemV, rest: Seq<char>)
    requires
        !"\n        - "@.is_prefix_of(rest),
    ensures
        sp_item(ser_item(it) + rest) == Some((it, rest)),
{
    reveal_strlit("\n    - name: ");
    reveal_strlit("\n      args:");
    let s = ser_item(it) + rest;
    lemma_item_starts(it, rest);
    let r0 = "\n      args:"@ + ser_args_block(it.args) + rest;
    assert(s.skip(13) == quoted(it.name) + r0);
    lemma_sp_scalar_round(it.name, r0);
    assert(r0 =~= "\n      args:"@ + (ser_args_block(it.args) + rest));
    lemma_concat_parts("\n      args:"@, ser_args_block(it.args) + rest);
    assert(r0.skip(12) == ser_args_block(it.args) + rest);
    lemma_sp_args_block_round(it.args, rest);
    assert(it == RunItemV { name: it.name, args: it.args });
    assert(sp_item(s) == Some((it, rest)));
}

/// Parsing serialized item entries yields the original items, as long as
/// what follows does not itself look like an item or argument entry.
proof fn lemma_sp_items_entries_round(items: Seq<RunItemV>, rest: Seq<char>)
    requires
        items.len() >= 1,
        !"\n    - name: "@.is_prefix_of(rest),
        !"\n        - "@.is_prefix_of(rest),
    ensures
        sp_items_entries(ser_items(items) + rest) == Some((items, rest)),
    decreases items.len(),
{
    let it0 = items[0];
    let items1 = items.skip(1);
    let s = ser_items(items) + rest;
    assert(ser_items(items) == ser_item(it0) + ser_items(items1));
    let r1 = ser_items(items1) + rest;
    assert(s =~= ser_item(it0) + r1);
    lemma_item_starts(it0, r1);
    if items1.len() == 0 {
        assert(r1 =~= rest);
        assert(ser_item(it0) + r1 =~= ser_item(it0) + rest);
        lemma_sp_item_round(it0, rest);
        assert(seq![it0] =~= items);
        assert(sp_items_entries(s) == Some((items, rest)));
    } else {
        assert(ser_items(items1) == ser_item(items1[0]) + ser_items(items1.skip(1)));
        assert(r1 =~= ser_item(items1[0]) + (ser_items(items1.skip(1)) + rest));
        lemma_item_starts(items1[0], ser_items(items1.skip(1)) + rest);
        lemma_sp_item_round(it0, r1);
        lemma_sp_items_entries_round(items1, rest);
        assert(seq![it0] + items1 =~= items);
        assert(sp_items_entries(s) == Some((items, rest)));
    }
}

/// Parsing a serialized item block yields the original items.
proof fn lemma_sp_items_block_round(items: Seq<RunItemV>, rest: Seq<char>)
    requires
        items.len() > 0 ==> !"\n    - name: "@.is_prefix_of(rest) && !"\n        - "@.is_prefix_of(
            rest,
        ),
    ensures
        sp_items_block(ser_items_block(items) + rest) == Some((items, rest)),
{
    reveal_strlit(" []");
    if items.len() == 0 {
        let s = " []"@ + rest;
        lemma_concat_parts(" []"@, rest);
        assert(s.skip(3) == rest);
        assert(items =~= Seq::<RunItemV>::empty());
    } else {
        let s = ser_items(items) + rest;
        assert(ser_items(items) == ser_item(items[0]) + ser_items(items.skip(1)));
        assert(s =~= ser_item(items[0]) + (ser_items(items.skip(1)) + rest));
        lemma_item_starts(items[0], ser_items(items.skip(1)) + rest);
        reveal_strlit("\n    - name: ");
        assert(s[0] == '\n');
        assert(" []"@[0] == ' ');
        lemma_not_prefix_at(" []"@, s, 0);
        lemma_sp_items_entries_round(items, rest);
    }
}

/// Round trip: parsing the rendered document of any list value yields that
/// value again, whatever its policy, items and argument strings.
pub proof fn lemma_round_trip(l: ListV)
    ensures
        sp_doc(ser_list(l)) == Some(l),
{
    reveal_strlit("---\nPromiscuous:\n  items:");
    reveal_strlit("---\nSilent:\n  items:");
    reveal_strlit("---\nInteractive:\n  items:");
    reveal_strlit("\n    - name: ");
    reveal_strlit("\n        - ");
    let s = ser_list(l);
    let items = l.items();
    let empty = Seq::<char>::empty();
    assert(ser_items_block(items) + empty =~= ser_items_block(items));
    lemma_sp_items_block_round(items, empty);
    match l {
        ListV::Promiscuous(its) => {
            assert(s =~= "---\nPromiscuous:\n  items:"@ + ser_items_block(its));
            lemma_concat_parts("---\nPromiscuous:\n  items:"@, ser_items_block(its));
            assert(s.skip(25) == ser_items_block(its));
            assert(sp_items_block(ser_items_block(its)) == Some((its, empty)));
            assert(sp_doc(s) == Some(l));
        },
        ListV::Silent(its) => {
            assert(s =~= "---\nSilent:\n  items:"@ + ser_items_block(its));
            lemma_concat_parts("---\nSilent:\n  items:"@, ser_items_block(its));
            assert(s[4] == 'S');
            assert("---\nPromiscuous:\n  items:"@[4] == 'P');
            lemma_not_prefix_at("---\nPromiscuous:\n  items:"@, s, 4);
            assert(s.skip(20) == ser_items_block(its));
            assert(sp_items_block(ser_items_block(its)) == Some((its, empty)));
            assert(sp_doc(s) == Some(l));
        },
        ListV::Interactive(its) => {
            assert(s =~= "---\nInteractive:\n  items:"@ + ser_items_block(its));
            lemma_concat_parts("---\nInteractive:\n  items:"@, ser_items_block(its));
            assert(s[4] == 'I');
            assert("---\nPromiscuous:\n  items:"@[4] == 'P');
            assert("---\nSilent:\n  items:"@[4] == 'S');
            lemma_not_prefix_at("---\nPromiscuous:\n  items:"@, s, 4);
            lemma_not_prefix_at("---\nSilent:\n  items:"@, s, 4);
            assert(s.skip(25) == ser_items_block(its));
            assert(sp_items_block(ser_items_block(its)) == Some((its, empty)));
            assert(sp_doc(s) == Some(l));
        },
    }
}

} // verus!
