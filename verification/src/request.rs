//! The wire side of a poll call: the exact bytes of the request body and the
//! export endpoint's URL.

use vstd::prelude::*;
use vstd::string::{StringExecFns, StringSliceAdditionalSpecFns};
use vstd::utf8::encode_utf8;

use crate::export::DbExportBookmark;

verus! {

/// The value of a hexadecimal digit, lower case, for values below sixteen.
pub open spec fn hex_digit(n: u8) -> u8 {
    if n < 10 {
        (48 + n) as u8
    } else {
        (87 + n) as u8
    }
}

/// How one byte of a string stands inside a JSON string literal: quote and
/// backslash escaped, the common control characters short-escaped, the other
/// control bytes as a four-digit escape, everything else as itself.
pub open spec fn escaped_byte(b: u8) -> Seq<u8> {
    if b == 34 {
        seq![92u8, 34u8]
    } else if b == 92 {
        seq![92u8, 92u8]
    } else if b == 10 {
        seq![92u8, 110u8]
    } else if b == 13 {
        seq![92u8, 114u8]
    } else if b == 9 {
        seq![92u8, 116u8]
    } else if b < 32 {
        seq![92u8, 117u8, 48u8, 48u8, hex_digit((b / 16) as u8), hex_digit((b % 16) as u8)]
    } else {
        seq![b]
    }
}

/// A string's UTF-8 bytes as they stand inside a JSON string literal.
pub open spec fn json_escaped(s: Seq<u8>) -> Seq<u8>
    decreases s.len(),
{
    if s.len() == 0 {
        Seq::empty()
    } else {
        json_escaped(s.drop_last()) + escaped_byte(s.last())
    }
}

fn hex_digit_exec(n: u8) -> (r: u8)
    requires
        n < 16,
    ensures
        r == hex_digit(n),
{
    if n < 10 {
        48 + n
    } else {
        87 + n
    }
}

fn push_escaped_byte(out: &mut Vec<u8>, b: u8)
    ensures
        final(out)@ == old(out)@ + escaped_byte(b),
{
    if b == 34 || b == 92 {
        out.push(92);
        out.push(b);
    } else if b == 10 {
        out.push(92);
        out.push(110);
    } else if b == 13 {
        out.push(92);
        out.push(114);
    } else if b == 9 {
        out.push(92);
        out.push(116);
    } else if b < 32 {
        out.push(92);
        out.push(117);
        out.push(48);
        out.push(48);
        out.push(hex_digit_exec(b / 16));
        out.push(hex_digit_exec(b % 16));
    } else {
        out.push(b);
    }
    proof {
        assert(out@ =~= old(out)@ + escaped_byte(b));
    }
}

fn append_json_escaped(out: &mut Vec<u8>, s: &str)
    ensures
        final(out)@ == old(out)@ + json_escaped(encode_utf8(s@)),
{
    let bytes = s.as_bytes();
    let ghost all = encode_utf8(s@);
    proof {
        assert(out@ + all.take(0) =~= out@);
    }
    let mut i: usize = 0;
    while i < bytes.len()
        invariant
            i <= bytes@.len(),
            bytes@ == all,
            out@ == old(out)@ + json_escaped(all.take(i as int)),
        decreases bytes@.len() - i,
    {
        let b = bytes[i];
        push_escaped_byte(out, b);
        proof {
            assert(all.take(i + 1).drop_last() =~= all.take(i as int));
            assert(all.take(i + 1).last() == b);
        }
        i += 1;
    }
    proof {
        assert(all.take(all.len() as int) =~= all);
    }
}

/// The exact bytes of the poll request's JSON body, for a run that holds this
/// bookmark (as its UTF-8 bytes): the bookmark field is omitted on the first
/// call and carried as an escaped JSON string afterwards.
pub open spec fn request_body_bytes(bookmark: Option<Seq<u8>>) -> Seq<u8> {
    match bookmark {
        None => "{\"output_format\":\"polling\"}".spec_bytes(),
        Some(token) => "{\"output_format\":\"polling\",\"current_bookmark\":\"".spec_bytes()
            + json_escaped(token) + "\"}".spec_bytes(),
    }
}

/// The UTF-8 bytes of the bookmark a run carries, when it carries one.
pub open spec fn bookmark_bytes(bookmark: Option<DbExportBookmark>) -> Option<Seq<u8>> {
    match bookmark {
        None => None,
        Some(b) => Some(encode_utf8(b.0@)),
    }
}

/// Build the poll request's JSON body, byte for byte as the wire contract
/// demands it.
pub fn export_request_body(bookmark: &Option<DbExportBookmark>) -> (r: Vec<u8>)
    ensures
        r@ == request_body_bytes(bookmark_bytes(*bookmark)),
{
    let mut out: Vec<u8> = Vec::new();
    match bookmark {
        None => {
            let head = "{\"output_format\":\"polling\"}";
            out.extend_from_slice(head.as_bytes());
            proof {
                assert(out@ =~= request_body_bytes(bookmark_bytes(*bookmark)));
            }
        },
        Some(b) => {
            let head = "{\"output_format\":\"polling\",\"current_bookmark\":\"";
            let tail = "\"}";
            out.extend_from_slice(head.as_bytes());
            proof {
                assert(out@ =~= head.spec_bytes());
            }
            append_json_escaped(&mut out, b.0.as_str());
            out.extend_from_slice(tail.as_bytes());
            proof {
                assert(out@ =~= request_body_bytes(bookmark_bytes(*bookmark)));
            }
        },
    }
    out
}

/// The export endpoint of the given account's database, under the fixed API
/// root.
pub fn export_url(account_id: &str, db_id: &str) -> (r: String)
    ensures
        r@ == "https://api.cloudflare.com/client/v4/accounts/"@ + account_id@ + "/d1/database/"@
            + db_id@ + "/export"@,
{
    let mut out = String::from_str("https://api.cloudflare.com/client/v4/accounts/");
    out.append(account_id);
    out.append("/d1/database/");
    out.append(db_id);
    out.append("/export");
    proof {
        assert(out@ =~= "https://api.cloudflare.com/client/v4/accounts/"@ + account_id@
            + "/d1/database/"@ + db_id@ + "/export"@);
    }
    out
}

} // verus!
