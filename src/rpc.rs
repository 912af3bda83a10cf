//! The JSON-RPC batch that carries signed payloads to the endpoint, and the
//! scan of its reply for failed items.
use vstd::prelude::*;
use vstd::string::StringExecFns;
use crate::utils::{decimal, digit_char, push_decimal};

verus! {

/// The lowercase hexadecimal digit for `d`, which is below sixteen.
pub open spec fn hex_digit(d: nat) -> char {
    if d < 10 {
        digit_char(d)
    } else if d == 10 {
        'a'
    } else if d == 11 {
        'b'
    } else if d == 12 {
        'c'
    } else if d == 13 {
        'd'
    } else if d == 14 {
        'e'
    } else {
        'f'
    }
}

/// `b` in lowercase hexadecimal, two digits per byte, high half first.
pub open spec fn hex_lower(b: Seq<u8>) -> Seq<char>
    decreases b.len(),
{
    if b.len() == 0 {
        Seq::empty()
    } else {
        hex_lower(b.drop_last()) + seq![hex_digit(b.last() as nat / 16), hex_digit(b.last() as nat % 16)]
    }
}

/// Relies on `hex::encode`: each byte becomes two digits of
/// `0123456789abcdef`, the high half first.
#[verifier::external_body]
fn hex_encode(b: &[u8]) -> (r: String)
    ensures
        r@ == hex_lower(b@),
{
    hex::encode(b)
}

/// The text of an item up to its payload.
pub open spec fn item_open() -> Seq<char> {
    "{\"jsonrpc\":\"2.0\",\"method\":\"eth_sendRawTransaction\",\"params\":[\"0x"@
}

/// The text of an item between its payload and its id.
pub open spec fn item_mid() -> Seq<char> {
    "\"],\"id\":"@
}

/// One `eth_sendRawTransaction` request for payload `tx` with id `id`.
pub open spec fn rpc_item(tx: Seq<u8>, id: nat) -> Seq<char> {
    item_open() + hex_lower(tx) + item_mid() + decimal(id) + seq!['}']
}

/// The first `n` requests of a batch, comma-separated, with ids from 1.
pub open spec fn rpc_items(txs: Seq<Vec<u8>>, n: nat) -> Seq<char>
    decreases n,
{
    if n == 0 || n > txs.len() {
        Seq::empty()
    } else {
        rpc_items(txs, (n - 1) as nat) + (if n > 1 {
            seq![',']
        } else {
            Seq::empty()
        }) + rpc_item(txs[n - 1]@, n)
    }
}

/// The JSON array of one request per payload, in order.
pub open spec fn rpc_batch(txs: Seq<Vec<u8>>) -> Seq<char> {
    seq!['['] + rpc_items(txs, txs.len()) + seq![']']
}

/// Writes the JSON-RPC batch request body for `txs`: one
/// `eth_sendRawTransaction` request per payload, its parameter the payload
/// in `0x`-prefixed hexadecimal, ids counting from 1.
pub fn rpc_batch_body(txs: &Vec<Vec<u8>>) -> (r: String)
    requires
        txs@.len() < u64::MAX,
    ensures
        r@ == rpc_batch(txs@),
{
    let mut out = String::new();
    out.append("[");
    let ghost opened = out@;
    let mut i: usize = 0;
    while i < txs.len()
        invariant
            i <= txs@.len(),
            txs@.len() < u64::MAX,
            out@ == opened + rpc_items(txs@, i as nat),
        decreases txs@.len() - i,
    {
        proof {
            reveal_strlit(",");
        }
        let ghost before = out@;
        if i > 0 {
            out.append(",");
        }
        out.append("{\"jsonrpc\":\"2.0\",\"method\":\"eth_sendRawTransaction\",\"params\":[\"0x");
        let hex = hex_encode(txs[i].as_slice());
        out.append(hex.as_str());
        out.append("\"],\"id\":");
        push_decimal(&mut out, (i + 1) as u64);
        out.append("}");
        proof {
            reveal_strlit("}");
        }
        assert(","@ =~= seq![',']);
        assert("}"@ =~= seq!['}']);
        assert(out@ =~= before + (if i + 1 > 1 {
            seq![',']
        } else {
            Seq::empty()
        }) + rpc_item(txs@[i as int]@, (i + 1) as nat));
        i = i + 1;
    }
    out.append("]");
    proof {
        reveal_strlit("[");
        reveal_strlit("]");
    }
    assert(out@ =~= rpc_batch(txs@));
    out
}

/// The bytes of `"error":`, the key that marks a failed item in a reply.
pub open spec fn error_marker() -> Seq<u8> {
    seq![34u8, 101u8, 114u8, 114u8, 111u8, 114u8, 34u8, 58u8]
}

/// The number of positions in `s` at which `"error":` starts.
pub open spec fn marker_count(s: Seq<u8>) -> nat
    decreases s.len(),
{
    if s.len() < 8 {
        0
    } else {
        (if s.take(8) == error_marker() {
            1nat
        } else {
            0nat
        }) + marker_count(s.skip(1))
    }
}

fn marker_at(body: &[u8], i: usize) -> (r: bool)
    requires
        i + 8 <= body@.len(),
    ensures
        r == (body@.subrange(i as int, i + 8) == error_marker()),
{
    let r = body[i] == 34 && body[i + 1] == 101 && body[i + 2] == 114 && body[i + 3] == 114
        && body[i + 4] == 111 && body[i + 5] == 114 && body[i + 6] == 34 && body[i + 7] == 58;
    if r {
        assert(body@.subrange(i as int, i + 8) =~= error_marker());
    } else {
        assert(body@.subrange(i as int, i + 8) != error_marker()) by {
            let w = body@.subrange(i as int, i + 8);
            if w == error_marker() {
                assert(w[0] == 34u8 && w[1] == 101u8 && w[2] == 114u8 && w[3] == 114u8);
                assert(w[4] == 111u8 && w[5] == 114u8 && w[6] == 34u8 && w[7] == 58u8);
            }
        }
    }
    r
}

/// Counts the occurrences of `"error":` in a reply body; each one marks an
/// item of the batch that failed.
pub fn count_error_markers(body: &[u8]) -> (r: usize)
    ensures
        r == marker_count(body@),
{
    let mut count: usize = 0;
    let mut i: usize = 0;
    assert(body@.skip(0) == body@);
    while i < body.len() && body.len() - i >= 8
        invariant
            i <= body@.len(),
            count <= i,
            count + marker_count(body@.skip(i as int)) == marker_count(body@),
        decreases body@.len() - i,
    {
        let ghost s = body@.skip(i as int);
        assert(s.take(8) == body@.subrange(i as int, i + 8));
        assert(s.skip(1) == body@.skip(i + 1));
        if marker_at(body, i) {
            count = count + 1;
        }
        i = i + 1;
    }
    count
}

/// The status codes of success, `200` to `299`.
pub fn is_success_status(status: u16) -> (r: bool)
    ensures
        r == (200 <= status <= 299),
{
    200 <= status && status <= 299
}

} // verus!
