//! DCC SEND offers: the payload grammar `DCC SEND "<name>" <ip> <port>
//! <size>`, filename normalization, and the receiver's progress accounting.

use vstd::prelude::*;
use crate::text::{
    match_at,
    rfind_upto,
    all_digits,
    digits_value,
    dec_str,
    str_chars,
    chars_to_string,
    matches_at,
    rfind_pattern,
    parse_number,
    u64_to_string,
};

verus! {

/// One inbound file offer: where to connect, what to call the file, and how
/// many bytes the sender declared.
pub struct Send {
    pub filename: String,
    pub ip: u32,
    pub port: u16,
    pub file_size: u64,
}

pub enum DccType {
    Send(Send),
}

/// A DCC offer tagged with the nick that sent it.
pub struct Dcc {
    pub sender: String,
    pub dcc_type: DccType,
}

pub struct SendView {
    pub filename: Seq<char>,
    pub ip: u32,
    pub port: u16,
    pub file_size: u64,
}

pub enum DccTypeView {
    Send(SendView),
}

pub struct DccView {
    pub sender: Seq<char>,
    pub dcc_type: DccTypeView,
}

impl View for Send {
    type V = SendView;

    open spec fn view(&self) -> SendView {
        SendView {
            filename: self.filename@,
            ip: self.ip,
            port: self.port,
            file_size: self.file_size,
        }
    }
}

impl View for DccType {
    type V = DccTypeView;

    open spec fn view(&self) -> DccTypeView {
        match self {
            DccType::Send(s) => DccTypeView::Send(s@),
        }
    }
}

impl View for Dcc {
    type V = DccView;

    open spec fn view(&self) -> DccView {
        DccView { sender: self.sender@, dcc_type: self.dcc_type@ }
    }
}

pub open spec fn no_quote(s: Seq<char>) -> bool {
    forall|i: int| 0 <= i < s.len() ==> s[i] != '"'
}

/// The filename region with one optional leading and one optional trailing
/// quote removed.
pub open spec fn strip_quotes(f: Seq<char>) -> Seq<char> {
    let g = if f.len() > 0 && f[0] == '"' {
        f.subrange(1, f.len() as int)
    } else {
        f
    };
    if g.len() > 0 && g[g.len() - 1] == '"' {
        g.subrange(0, g.len() - 1)
    } else {
        g
    }
}

/// The DCC SEND grammar over an unframed CTCP payload. The last three
/// space-separated fields are the address (a big-endian 32-bit decimal),
/// the port and the declared size; everything between the fixed prefix and
/// those fields is the filename, optionally quoted, spaces allowed.
pub open spec fn spec_parse_dcc_send(payload: Seq<char>) -> Option<SendView> {
    if !match_at(payload, "DCC SEND "@, 0) {
        None
    } else {
        let n = payload.len() as int;
        match rfind_upto(payload, " "@, n - 1) {
            None => None,
            Some(k3) => match rfind_upto(payload, " "@, k3 - 1) {
                None => None,
                Some(k2) => match rfind_upto(payload, " "@, k2 - 1) {
                    None => None,
                    Some(k1) => {
                        let pre = "DCC SEND "@.len() as int;
                        if k1 < pre {
                            None
                        } else {
                            let name = strip_quotes(payload.subrange(pre, k1));
                            let ip_s = payload.subrange(k1 + 1, k2);
                            let port_s = payload.subrange(k2 + 1, k3);
                            let size_s = payload.subrange(k3 + 1, n);
                            if ip_s.len() > 0 && all_digits(ip_s) && digits_value(ip_s)
                                <= u32::MAX && port_s.len() > 0 && all_digits(port_s)
                                && digits_value(port_s) <= u16::MAX && size_s.len() > 0
                                && all_digits(size_s) && digits_value(size_s) <= u64::MAX
                                && no_quote(name) {
                                Some(
                                    SendView {
                                        filename: name,
                                        ip: digits_value(ip_s) as u32,
                                        port: digits_value(port_s) as u16,
                                        file_size: digits_value(size_s) as u64,
                                    },
                                )
                            } else {
                                None
                            }
                        }
                    },
                },
            },
        }
    }
}

/// The filename with every space replaced by an underscore.
pub open spec fn spec_normalize(s: Seq<char>) -> Seq<char> {
    s.map_values(
        |c: char|
            if c == ' ' {
                '_'
            } else {
                c
            },
    )
}

/// The dotted-quad form of a 32-bit address, most significant octet first.
pub open spec fn spec_dotted_quad(ip: u32) -> Seq<char> {
    dec_str((ip as nat) / 0x1000000) + "."@ + dec_str(((ip as nat) / 0x10000) % 256) + "."@
        + dec_str(((ip as nat) / 0x100) % 256) + "."@ + dec_str((ip as nat) % 256)
}

/// The dotted-quad rendering is the big-endian reading of the address: its
/// four octets, most significant first, reassemble to the 32-bit value.
pub proof fn lemma_dotted_quad_is_big_endian(ip: u32)
    ensures
        ({
            let o1 = (ip as nat) / 0x1000000;
            let o2 = ((ip as nat) / 0x10000) % 256;
            let o3 = ((ip as nat) / 0x100) % 256;
            let o4 = (ip as nat) % 256;
            &&& spec_dotted_quad(ip) == dec_str(o1) + "."@ + dec_str(o2) + "."@ + dec_str(o3)
                + "."@ + dec_str(o4)
            &&& o1 < 256 && o2 < 256 && o3 < 256 && o4 < 256
            &&& ip == o1 * 0x1000000 + o2 * 0x10000 + o3 * 0x100 + o4
        }),
{
    let n = ip as nat;
    assert(n / 0x1000000 < 256 && n == (n / 0x1000000) * 0x1000000 + ((n / 0x10000) % 256)
        * 0x10000 + ((n / 0x100) % 256) * 0x100 + n % 256) by (nonlinear_arith)
        requires
            n <= 0xffffffff,
    ;
}

/// Whether any character of `v` between `from` and `to` is a double quote.
fn region_has_quote(v: &Vec<char>, from: usize, to: usize) -> (b: bool)
    requires
        from <= to <= v@.len(),
    ensures
        b == !no_quote(v@.subrange(from as int, to as int)),
{
    let mut i: usize = from;
    while i < to
        invariant
            from <= i <= to <= v@.len(),
            forall|j: int| from <= j < i ==> v@[j] != '"',
        decreases to - i,
    {
        if v[i] == '"' {
            assert(v@.subrange(from as int, to as int)[i - from] == '"');
            return true;
        }
        i = i + 1;
    }
    false
}

impl DccType {
    /// Parses an unframed CTCP payload as a DCC SEND offer.
    pub fn parse(payload: &str) -> (r: Option<DccType>)
        ensures
            match r {
                Some(d) => spec_parse_dcc_send(payload@) == Some(d@->Send_0),
                None => spec_parse_dcc_send(payload@) is None,
            },
    {
        proof {
            reveal_strlit("DCC SEND ");
            reveal_strlit(" ");
            reveal_strlit("\"");
        }
        let v = str_chars(payload);
        let vlen = v.len();
        let prefix = str_chars("DCC SEND ");
        if vlen < prefix.len() || !matches_at(&v, &prefix, 0) {
            return None;
        }
        let space = str_chars(" ");
        let k3 = match rfind_pattern(&v, vlen - 1, &space) {
            Some(k) => k,
            None => {
                return None;
            },
        };
        proof {
            assert(v@.subrange(k3 as int, k3 + 1)[0] == v@[k3 as int]);
            assert(v@.subrange(0, prefix@.len() as int)[0] == v@[0]);
            assert(v@[k3 as int] == ' ' && v@[0] == 'D');
        }
        let k2 = match rfind_pattern(&v, k3 - 1, &space) {
            Some(k) => k,
            None => {
                return None;
            },
        };
        proof {
            assert(v@.subrange(k2 as int, k2 + 1)[0] == v@[k2 as int]);
            assert(v@[k2 as int] == ' ');
        }
        let k1 = match rfind_pattern(&v, k2 - 1, &space) {
            Some(k) => k,
            None => {
                return None;
            },
        };
        if k1 < prefix.len() {
            return None;
        }
        let ip = match parse_number(&v, k1 + 1, k2, u32::MAX as u64) {
            Some(x) => x as u32,
            None => {
                return None;
            },
        };
        let port = match parse_number(&v, k2 + 1, k3, u16::MAX as u64) {
            Some(x) => x as u16,
            None => {
                return None;
            },
        };
        let size = match parse_number(&v, k3 + 1, vlen, u64::MAX) {
            Some(x) => x,
            None => {
                return None;
            },
        };
        let mut fs: usize = prefix.len();
        let mut fe: usize = k1;
        if fe > fs && v[fs] == '"' {
            fs = fs + 1;
        }
        if fe > fs && v[fe - 1] == '"' {
            fe = fe - 1;
        }
        proof {
            assert(v@.subrange(fs as int, fe as int) =~= strip_quotes(
                v@.subrange(prefix@.len() as int, k1 as int),
            ));
        }
        if region_has_quote(&v, fs, fe) {
            return None;
        }
        let filename = chars_to_string(&v, fs, fe);
        Some(DccType::Send(Send { filename, ip, port, file_size: size }))
    }
}

impl Send {
    /// The local output name: the offered filename with spaces replaced by
    /// underscores and nothing else changed.
    pub fn normalized_filename(&self) -> (r: String)
        ensures
            r@ == spec_normalize(self.filename@),
    {
        let v = str_chars(self.filename.as_str());
        let mut r = String::new();
        let mut i: usize = 0;
        while i < v.len()
            invariant
                i <= v@.len(),
                v@ == self.filename@,
                r@ == spec_normalize(v@.subrange(0, i as int)),
            decreases v@.len() - i,
        {
            let c = v[i];
            if c == ' ' {
                r.push('_');
            } else {
                r.push(c);
            }
            assert(r@ =~= spec_normalize(v@.subrange(0, i + 1 as int)));
            i = i + 1;
        }
        assert(v@.subrange(0, v@.len() as int) =~= v@);
        r
    }

    /// The offer's address as dotted-quad text, for opening the data
    /// connection.
    pub fn ip_string(&self) -> (r: String)
        ensures
            r@ == spec_dotted_quad(self.ip),
    {
        let a = self.ip / 0x1000000;
        let b = (self.ip / 0x10000) % 256;
        let c = (self.ip / 0x100) % 256;
        let d = self.ip % 256;
        let mut r = u64_to_string(a as u64);
        r.append(".");
        let sb = u64_to_string(b as u64);
        r.append(sb.as_str());
        r.append(".");
        let sc = u64_to_string(c as u64);
        r.append(sc.as_str());
        r.append(".");
        let sd = u64_to_string(d as u64);
        r.append(sd.as_str());
        assert(r@ =~= spec_dotted_quad(self.ip));
        r
    }
}

/// Byte accounting for one running transfer: how much has arrived against
/// the declared size.
pub struct TransferProgress {
    pub received: u64,
    pub size: u64,
}

impl TransferProgress {
    pub fn new(size: u64) -> (t: TransferProgress)
        ensures
            t.received == 0,
            t.size == size,
    {
        TransferProgress { received: 0, size }
    }

    /// Accounts for one chunk read from the data connection; the count
    /// saturates rather than wraps. Returns whether the declared size has
    /// been reached, which is the receiver's stopping condition.
    pub fn record_bytes(&mut self, count: u64) -> (done: bool)
        ensures
            final(self).size == old(self).size,
            final(self).received == if old(self).received + count <= u64::MAX {
                old(self).received + count
            } else {
                u64::MAX as int
            },
            done == (final(self).received >= final(self).size),
    {
        self.received = self.received.saturating_add(count);
        self.received >= self.size
    }

    pub fn is_complete(&self) -> (r: bool)
        ensures
            r == (self.received >= self.size),
    {
        self.received >= self.size
    }
}

} // verus!
