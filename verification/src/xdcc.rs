//! The XDCC request surface: `/msg <bot> xdcc <verb> ...` commands parsed
//! case-insensitively, and their rendering as chat messages to the bot.

use vstd::prelude::*;
use crate::command::MessageTo;
use crate::text::{
    match_at,
    find_from,
    rfind_upto,
    all_digits,
    digits_value,
    dec_str,
    lower_seq,
    lemma_lower_seq_idempotent,
    str_chars,
    chars_to_string,
    subvec,
    matches_at,
    find_pattern,
    rfind_pattern,
    parse_number,
    u64_to_string,
    lower_chars,
};

verus! {

/// A user's XDCC request to a bot. Package identifiers are unsigned; a
/// missing identifier on Send means "most recent", a missing one on Remove
/// means "remove all"; a Batch keeps its identifiers in request order,
/// duplicates included.
#[derive(Clone, Debug)]
pub enum Xdcc {
    Cancel(String),
    Send(String, Option<u32>),
    Info(String, u32),
    Remove(String, Option<u32>),
    Batch(String, Vec<u32>),
}

pub enum XdccView {
    Cancel(Seq<char>),
    Send(Seq<char>, Option<u32>),
    Info(Seq<char>, u32),
    Remove(Seq<char>, Option<u32>),
    Batch(Seq<char>, Seq<u32>),
}

impl View for Xdcc {
    type V = XdccView;

    open spec fn view(&self) -> XdccView {
        match self {
            Xdcc::Cancel(b) => XdccView::Cancel(b@),
            Xdcc::Send(b, p) => XdccView::Send(b@, *p),
            Xdcc::Info(b, p) => XdccView::Info(b@, *p),
            Xdcc::Remove(b, p) => XdccView::Remove(b@, *p),
            Xdcc::Batch(b, ids) => XdccView::Batch(b@, ids@),
        }
    }
}

pub open spec fn spec_recipient(x: XdccView) -> Seq<char> {
    match x {
        XdccView::Cancel(b) => b,
        XdccView::Send(b, _) => b,
        XdccView::Info(b, _) => b,
        XdccView::Remove(b, _) => b,
        XdccView::Batch(b, _) => b,
    }
}

/// A package argument: optional `#`, then a decimal identifier.
pub open spec fn spec_pkg_num(arg: Seq<char>) -> Option<u32> {
    let d = if arg.len() > 0 && arg[0] == '#' {
        arg.subrange(1, arg.len() as int)
    } else {
        arg
    };
    if d.len() > 0 && all_digits(d) && digits_value(d) <= u32::MAX {
        Some(digits_value(d) as u32)
    } else {
        None
    }
}

/// A Send/Get argument: after an optional `#`, either `-1` or `list`
/// (both mean no chosen package) or a decimal identifier.
pub open spec fn spec_send_arg(bot: Seq<char>, arg: Seq<char>) -> Option<XdccView> {
    let d = if arg.len() > 0 && arg[0] == '#' {
        arg.subrange(1, arg.len() as int)
    } else {
        arg
    };
    if d == "-1"@ || d == "list"@ {
        Some(XdccView::Send(bot, None))
    } else if d.len() > 0 && all_digits(d) && digits_value(d) <= u32::MAX {
        Some(XdccView::Send(bot, Some(digits_value(d) as u32)))
    } else {
        None
    }
}

/// A comma-separated list of package arguments, kept in order.
pub open spec fn spec_batch_ids(s: Seq<char>) -> Option<Seq<u32>>
    decreases s.len(),
{
    match find_from(s, seq![','], 0) {
        None => match spec_pkg_num(s) {
            Some(n) => Some(seq![n]),
            None => None,
        },
        Some(c) => {
            if 0 <= c && c + 1 <= s.len() {
                match spec_pkg_num(s.subrange(0, c)) {
                    None => None,
                    Some(n) => match spec_batch_ids(s.subrange(c + 1, s.len() as int)) {
                        None => None,
                        Some(rest) => Some(seq![n] + rest),
                    },
                }
            } else {
                None
            }
        },
    }
}

/// The verb phrase after the last ` xdcc `, matched exactly.
pub open spec fn spec_parse_tail(bot: Seq<char>, tail: Seq<char>) -> Option<XdccView> {
    if tail == "cancel"@ {
        Some(XdccView::Cancel(bot))
    } else if match_at(tail, "send "@, 0) {
        spec_send_arg(bot, tail.subrange("send "@.len() as int, tail.len() as int))
    } else if match_at(tail, "get "@, 0) {
        spec_send_arg(bot, tail.subrange("get "@.len() as int, tail.len() as int))
    } else if match_at(tail, "info "@, 0) {
        match spec_pkg_num(tail.subrange("info "@.len() as int, tail.len() as int)) {
            Some(n) => Some(XdccView::Info(bot, n)),
            None => None,
        }
    } else if match_at(tail, "batch "@, 0) {
        match spec_batch_ids(tail.subrange("batch "@.len() as int, tail.len() as int)) {
            Some(ids) => Some(XdccView::Batch(bot, ids)),
            None => None,
        }
    } else if match_at(tail, "remove "@, 0) && spec_pkg_num(
        tail.subrange("remove "@.len() as int, tail.len() as int),
    ) is Some {
        Some(
            XdccView::Remove(
                bot,
                spec_pkg_num(tail.subrange("remove "@.len() as int, tail.len() as int)),
            ),
        )
    } else if tail == "remove"@ || tail == "remove all"@ {
        Some(XdccView::Remove(bot, None))
    } else {
        None
    }
}

/// An already lower-cased command: `/msg `, then the bot name up to the
/// last ` xdcc `, then the verb phrase.
pub open spec fn spec_parse_xdcc_lower(l: Seq<char>) -> Option<XdccView> {
    if !match_at(l, "/msg "@, 0) {
        None
    } else {
        match rfind_upto(l, " xdcc "@, l.len() as int) {
            None => None,
            Some(p) => {
                if p < "/msg "@.len() {
                    None
                } else {
                    spec_parse_tail(
                        l.subrange("/msg "@.len() as int, p),
                        l.subrange(p + " xdcc "@.len(), l.len() as int),
                    )
                }
            },
        }
    }
}

/// What a command string parses to: the case-folded form of the string,
/// under the grammar above.
pub open spec fn spec_parse_xdcc(s: Seq<char>) -> Option<XdccView> {
    spec_parse_xdcc_lower(lower_seq(s))
}

/// Parsing is insensitive to ASCII case: a command and its case-folded form
/// parse to the same request.
pub proof fn lemma_parse_case_insensitive(s: Seq<char>)
    ensures
        spec_parse_xdcc(s) == spec_parse_xdcc(lower_seq(s)),
{
    lemma_lower_seq_idempotent(s);
}

/// Parses a package argument of `v` between `from` and `to`.
fn parse_pkg_num(v: &Vec<char>, from: usize, to: usize) -> (r: Option<u32>)
    requires
        from <= to <= v@.len(),
    ensures
        r == spec_pkg_num(v@.subrange(from as int, to as int)),
{
    let ghost arg = v@.subrange(from as int, to as int);
    let mut f = from;
    if f < to && v[f] == '#' {
        assert(arg[0] == '#');
        f = f + 1;
        assert(arg.subrange(1, arg.len() as int) =~= v@.subrange(f as int, to as int));
    } else {
        assert(arg =~= v@.subrange(f as int, to as int));
    }
    match parse_number(v, f, to, u32::MAX as u64) {
        Some(n) => Some(n as u32),
        None => None,
    }
}

/// Parses a comma-separated package list.
fn parse_batch_ids(arg: &Vec<char>) -> (r: Option<Vec<u32>>)
    ensures
        match r {
            Some(ids) => spec_batch_ids(arg@) == Some(ids@),
            None => spec_batch_ids(arg@) is None,
        },
    decreases arg@.len(),
{
    proof {
        reveal_strlit(",");
    }
    let comma = str_chars(",");
    assert(comma@ =~= seq![',']);
    let alen = arg.len();
    assert(arg@.subrange(0, alen as int) =~= arg@);
    match find_pattern(arg, 0, &comma) {
        None => match parse_pkg_num(arg, 0, alen) {
            Some(n) => {
                let ids = vec![n];
                assert(ids@ =~= seq![n]);
                Some(ids)
            },
            None => None,
        },
        Some(c) => match parse_pkg_num(arg, 0, c) {
            None => None,
            Some(n) => {
                let rest = subvec(arg, c + 1, alen);
                match parse_batch_ids(&rest) {
                    None => None,
                    Some(mut ids) => {
                        let ghost tail_ids = ids@;
                        ids.insert(0, n);
                        assert(ids@ =~= seq![n] + tail_ids);
                        Some(ids)
                    },
                }
            },
        },
    }
}

/// Compares the whole of `v` against `pat`.
fn region_equals(v: &Vec<char>, from: usize, to: usize, pat: &Vec<char>) -> (b: bool)
    requires
        from <= to <= v@.len(),
    ensures
        b == (v@.subrange(from as int, to as int) == pat@),
{
    if to - from != pat.len() {
        assert(v@.subrange(from as int, to as int).len() != pat@.len());
        return false;
    }
    if matches_at(v, pat, from) {
        assert(v@.subrange(from as int, from + pat@.len()) =~= v@.subrange(
            from as int,
            to as int,
        ));
        true
    } else {
        assert(v@.subrange(from as int, from + pat@.len()) =~= v@.subrange(
            from as int,
            to as int,
        ));
        false
    }
}

/// Checks whether `pat` is a strict prefix of the region.
fn region_prefix(v: &Vec<char>, from: usize, to: usize, pat: &Vec<char>) -> (b: bool)
    requires
        from <= to <= v@.len(),
    ensures
        b == match_at(v@.subrange(from as int, to as int), pat@, 0),
{
    if to - from < pat.len() {
        return false;
    }
    let b = matches_at(v, pat, from);
    proof {
        let region = v@.subrange(from as int, to as int);
        assert(region.subrange(0, pat@.len() as int) =~= v@.subrange(
            from as int,
            from + pat@.len(),
        ));
    }
    b
}

impl Xdcc {
    /// The bot this request addresses.
    pub fn recipient(&self) -> (r: &str)
        ensures
            r@ == spec_recipient(self@),
    {
        match self {
            Xdcc::Cancel(b) => b.as_str(),
            Xdcc::Send(b, _) => b.as_str(),
            Xdcc::Info(b, _) => b.as_str(),
            Xdcc::Remove(b, _) => b.as_str(),
            Xdcc::Batch(b, _) => b.as_str(),
        }
    }

    /// Parses a command string, insensitively to ASCII case.
    pub fn parse(s: &str) -> (r: Option<Xdcc>)
        ensures
            match r {
                Some(x) => spec_parse_xdcc(s@) == Some(x@),
                None => spec_parse_xdcc(s@) is None,
            },
    {
        proof {
            reveal_strlit("/msg ");
            reveal_strlit(" xdcc ");
        }
        let raw = str_chars(s);
        let v = lower_chars(&raw);
        let vlen = v.len();
        let msg_prefix = str_chars("/msg ");
        if vlen < msg_prefix.len() || !matches_at(&v, &msg_prefix, 0) {
            return None;
        }
        let xdcc_pat = str_chars(" xdcc ");
        let p = match rfind_pattern(&v, vlen, &xdcc_pat) {
            Some(p) => p,
            None => {
                return None;
            },
        };
        if p < msg_prefix.len() {
            return None;
        }
        let bot = chars_to_string(&v, msg_prefix.len(), p);
        let tail = subvec(&v, p + xdcc_pat.len(), vlen);
        Self::parse_tail(bot, &tail)
    }

    /// Parses the verb phrase that follows ` xdcc `.
    fn parse_tail(bot: String, t: &Vec<char>) -> (r: Option<Xdcc>)
        ensures
            match r {
                Some(x) => spec_parse_tail(bot@, t@) == Some(x@),
                None => spec_parse_tail(bot@, t@) is None,
            },
    {
        let tlen = t.len();
        let ghost tail = t@;
        assert(tail =~= t@.subrange(0, tlen as int));
        let cancel = str_chars("cancel");
        if region_equals(t, 0, tlen, &cancel) {
            return Some(Xdcc::Cancel(bot));
        }
        let send_pat = str_chars("send ");
        if region_prefix(t, 0, tlen, &send_pat) {
            assert(tail.subrange(0, send_pat@.len() as int) =~= tail.subrange(
                0,
                "send "@.len() as int,
            ));
            return Self::parse_send_arg(bot, t, send_pat.len());
        }
        let get_pat = str_chars("get ");
        if region_prefix(t, 0, tlen, &get_pat) {
            return Self::parse_send_arg(bot, t, get_pat.len());
        }
        let info_pat = str_chars("info ");
        if region_prefix(t, 0, tlen, &info_pat) {
            let from = info_pat.len();
            assert(tail.subrange(from as int, tlen as int) =~= t@.subrange(
                from as int,
                tlen as int,
            ));
            return match parse_pkg_num(t, from, tlen) {
                Some(n) => Some(Xdcc::Info(bot, n)),
                None => None,
            };
        }
        let batch_pat = str_chars("batch ");
        if region_prefix(t, 0, tlen, &batch_pat) {
            let arg = subvec(t, batch_pat.len(), tlen);
            return match parse_batch_ids(&arg) {
                Some(ids) => Some(Xdcc::Batch(bot, ids)),
                None => None,
            };
        }
        let remove_pat = str_chars("remove ");
        if region_prefix(t, 0, tlen, &remove_pat) {
            let from = remove_pat.len();
            assert(tail.subrange(from as int, tlen as int) =~= t@.subrange(
                from as int,
                tlen as int,
            ));
            if let Some(n) = parse_pkg_num(t, from, tlen) {
                return Some(Xdcc::Remove(bot, Some(n)));
            }
        }
        let remove_bare = str_chars("remove");
        if region_equals(t, 0, tlen, &remove_bare) {
            return Some(Xdcc::Remove(bot, None));
        }
        let remove_all = str_chars("remove all");
        if region_equals(t, 0, tlen, &remove_all) {
            return Some(Xdcc::Remove(bot, None));
        }
        None
    }

    /// Parses the argument of a `send` or `get` verb.
    fn parse_send_arg(bot: String, t: &Vec<char>, from: usize) -> (r: Option<Xdcc>)
        requires
            from <= t@.len(),
        ensures
            match r {
                Some(x) => spec_send_arg(bot@, t@.subrange(from as int, t@.len() as int)) == Some(
                    x@,
                ),
                None => spec_send_arg(bot@, t@.subrange(from as int, t@.len() as int)) is None,
            },
    {
        let tlen = t.len();
        let ghost arg = t@.subrange(from as int, tlen as int);
        let mut f = from;
        if f < tlen && t[f] == '#' {
            assert(arg[0] == '#');
            f = f + 1;
            assert(arg.subrange(1, arg.len() as int) =~= t@.subrange(f as int, tlen as int));
        } else {
            assert(arg =~= t@.subrange(f as int, tlen as int));
        }
        let ghost d = t@.subrange(f as int, tlen as int);
        let neg_one = str_chars("-1");
        if region_equals(t, f, tlen, &neg_one) {
            return Some(Xdcc::Send(bot, None));
        }
        let list_pat = str_chars("list");
        if region_equals(t, f, tlen, &list_pat) {
            return Some(Xdcc::Send(bot, None));
        }
        match parse_number(t, f, tlen, u32::MAX as u64) {
            Some(n) => Some(Xdcc::Send(bot, Some(n as u32))),
            None => None,
        }
    }

    /// Renders the request as the chat message sent to the bot.
    pub fn to_message(self) -> (m: MessageTo)
        ensures
            m@.recipient == spec_recipient(self@),
            m@.message == spec_xdcc_message(self@),
    {
        match self {
            Xdcc::Cancel(bot) => MessageTo {
                recipient: bot,
                message: String::from_str("xdcc cancel"),
            },
            Xdcc::Send(bot, Some(p)) => {
                let mut m = String::from_str("xdcc send #");
                let num = u64_to_string(p as u64);
                m.append(num.as_str());
                MessageTo { recipient: bot, message: m }
            },
            Xdcc::Send(bot, None) => MessageTo {
                recipient: bot,
                message: String::from_str("xdcc send -1"),
            },
            Xdcc::Info(bot, p) => {
                let mut m = String::from_str("xdcc info #");
                let num = u64_to_string(p as u64);
                m.append(num.as_str());
                MessageTo { recipient: bot, message: m }
            },
            Xdcc::Batch(bot, ids) => {
                let mut m = String::from_str("xdcc batch ");
                let list = batch_ids_string(&ids, 0);
                assert(ids@.subrange(0, ids@.len() as int) =~= ids@);
                m.append(list.as_str());
                MessageTo { recipient: bot, message: m }
            },
            Xdcc::Remove(bot, Some(p)) => {
                let mut m = String::from_str("xdcc remove #");
                let num = u64_to_string(p as u64);
                m.append(num.as_str());
                MessageTo { recipient: bot, message: m }
            },
            Xdcc::Remove(bot, None) => MessageTo {
                recipient: bot,
                message: String::from_str("xdcc remove all"),
            },
        }
    }
}

/// The comma-joined decimal identifiers of a Batch request, in order.
pub open spec fn spec_batch_str(ids: Seq<u32>) -> Seq<char>
    decreases ids.len(),
{
    if ids.len() == 0 {
        Seq::empty()
    } else if ids.len() == 1 {
        dec_str(ids[0] as nat)
    } else {
        dec_str(ids[0] as nat) + ","@ + spec_batch_str(ids.drop_first())
    }
}

/// The exact chat text of each request.
pub open spec fn spec_xdcc_message(x: XdccView) -> Seq<char> {
    match x {
        XdccView::Cancel(_) => "xdcc cancel"@,
        XdccView::Send(_, Some(p)) => "xdcc send #"@ + dec_str(p as nat),
        XdccView::Send(_, None) => "xdcc send -1"@,
        XdccView::Info(_, p) => "xdcc info #"@ + dec_str(p as nat),
        XdccView::Batch(_, ids) => "xdcc batch "@ + spec_batch_str(ids),
        XdccView::Remove(_, Some(p)) => "xdcc remove #"@ + dec_str(p as nat),
        XdccView::Remove(_, None) => "xdcc remove all"@,
    }
}

/// Renders the identifiers of `ids` from `from` on, comma separated.
fn batch_ids_string(ids: &Vec<u32>, from: usize) -> (s: String)
    requires
        from <= ids@.len(),
    ensures
        s@ == spec_batch_str(ids@.subrange(from as int, ids@.len() as int)),
    decreases ids@.len() - from,
{
    proof {
        reveal_strlit(",");
    }
    let n = ids.len();
    if from == n {
        String::new()
    } else if from + 1 == n {
        u64_to_string(ids[from] as u64)
    } else {
        let mut s = u64_to_string(ids[from] as u64);
        s.append(",");
        let rest = batch_ids_string(ids, from + 1);
        s.append(rest.as_str());
        proof {
            let whole = ids@.subrange(from as int, n as int);
            assert(whole.drop_first() =~= ids@.subrange(from + 1 as int, n as int));
        }
        s
    }
}

} // verus!
