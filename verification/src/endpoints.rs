use vstd::prelude::*;
use vstd::string::{StrSliceExecFns, StringExecFns};

verus! {

// Paths of the management API, assembled from queue and exchange names. The
// virtual-host component is percent-encoded: the default vhost is the single
// character `/`, which would otherwise break the path structure.

/// How one character of a vhost name appears in a URL path.
pub open spec fn enc_char(c: char) -> Seq<char> {
    if c == '/' {
        seq!['%', '2', 'F']
    } else {
        seq![c]
    }
}

/// A vhost name with every `/` replaced by `%2F`.
pub open spec fn encode_vhost_spec(s: Seq<char>) -> Seq<char>
    decreases s.len(),
{
    if s.len() == 0 {
        Seq::empty()
    } else {
        enc_char(s.first()) + encode_vhost_spec(s.drop_first())
    }
}

/// Encoding a string one character longer appends that character's encoding.
proof fn lemma_encode_push(s: Seq<char>, c: char)
    ensures
        encode_vhost_spec(s.push(c)) == encode_vhost_spec(s) + enc_char(c),
    decreases s.len(),
{
    if s.len() == 0 {
        assert(s.push(c).first() == c);
        assert(s.push(c).drop_first() =~= Seq::<char>::empty());
        assert(enc_char(c) + encode_vhost_spec(Seq::<char>::empty()) =~= enc_char(c));
        assert(encode_vhost_spec(s) + enc_char(c) =~= enc_char(c));
    } else {
        assert(s.push(c).drop_first() =~= s.drop_first().push(c));
        lemma_encode_push(s.drop_first(), c);
        assert(encode_vhost_spec(s.push(c)) =~= encode_vhost_spec(s) + enc_char(c));
    }
}

/// Percent-encode a vhost name for use as one path component.
pub fn encode_vhost(vhost: &str) -> (r: String)
    ensures
        r@ == encode_vhost_spec(vhost@),
{
    let n = vhost.unicode_len();
    let mut out = String::new();
    let mut i: usize = 0;
    while i < n
        invariant
            i <= n == vhost@.len(),
            out@ == encode_vhost_spec(vhost@.take(i as int)),
        decreases n - i,
    {
        let c = vhost.get_char(i);
        if c == '/' {
            proof {
                reveal_strlit("%2F");
            }
            out.append("%2F");
        } else {
            let piece = vhost.substring_char(i, i + 1);
            proof {
                assert(piece@ =~= seq![vhost@[i as int]]);
            }
            out.append(piece);
        }
        proof {
            lemma_encode_push(vhost@.take(i as int), vhost@[i as int]);
            assert(vhost@.take(i + 1) =~= vhost@.take(i as int).push(vhost@[i as int]));
        }
        i = i + 1;
    }
    proof {
        assert(vhost@.take(n as int) =~= vhost@);
    }
    out
}

/// Path listing the bindings that originate at an exchange.
pub fn bindings_endpoint(vhost: &str, exchange: &str) -> (r: String)
    ensures
        r@ == "/api/exchanges/"@ + encode_vhost_spec(vhost@) + "/"@ + exchange@
            + "/bindings/source"@,
{
    let mut out = String::from_str("/api/exchanges/");
    out.append(encode_vhost(vhost).as_str());
    out.append("/");
    out.append(exchange);
    out.append("/bindings/source");
    out
}

/// Path for publishing to a vhost's default exchange; the queue is addressed
/// through the routing key in the body, so the exchange component is empty.
pub fn publish_endpoint(vhost: &str) -> (r: String)
    ensures
        r@ == "/api/exchanges/"@ + encode_vhost_spec(vhost@) + "//publish"@,
{
    let mut out = String::from_str("/api/exchanges/");
    out.append(encode_vhost(vhost).as_str());
    out.append("//publish");
    out
}

/// Path for popping a message from a queue.
pub fn pop_endpoint(vhost: &str, queue: &str) -> (r: String)
    ensures
        r@ == "/api/queues/"@ + encode_vhost_spec(vhost@) + "/"@ + queue@ + "/get"@,
{
    let mut out = String::from_str("/api/queues/");
    out.append(encode_vhost(vhost).as_str());
    out.append("/");
    out.append(queue);
    out.append("/get");
    out
}

/// Path for purging a queue.
pub fn purge_endpoint(vhost: &str, queue: &str) -> (r: String)
    ensures
        r@ == "/api/queues/"@ + encode_vhost_spec(vhost@) + "/"@ + queue@ + "/contents"@,
{
    let mut out = String::from_str("/api/queues/");
    out.append(encode_vhost(vhost).as_str());
    out.append("/");
    out.append(queue);
    out.append("/contents");
    out
}

} // verus!
