use vstd::prelude::*;
use vstd::string::StrSliceExecFns;
use vstd::string::StringExecFns;

verus! {

/// The scheme part of a Redis connection URL: `redis://`.
pub open spec fn redis_scheme() -> Seq<char> {
    seq!['r', 'e', 'd', 'i', 's', ':', '/', '/']
}

/// The scheme part of a plain-text gRPC endpoint URI: `http://`.
pub open spec fn http_scheme() -> Seq<char> {
    seq!['h', 't', 't', 'p', ':', '/', '/']
}

/// `s` with `prefix` taken off its front, or `None` where `s` does not
/// start with `prefix`.
pub open spec fn strip_prefix_of(s: Seq<char>, prefix: Seq<char>) -> Option<Seq<char>> {
    if prefix.len() <= s.len() && s.subrange(0, prefix.len() as int) == prefix {
        Some(s.subrange(prefix.len() as int, s.len() as int))
    } else {
        None
    }
}

/// `s` with every trailing `c` removed.
pub open spec fn trim_end_char(s: Seq<char>, c: char) -> Seq<char>
    decreases s.len(),
{
    if s.len() > 0 && s.last() == c {
        trim_end_char(s.drop_last(), c)
    } else {
        s
    }
}

/// The `host:port` that a Redis address names: the address without a
/// leading `redis://` and without trailing slashes.
pub open spec fn redis_host_port_of(addr: Seq<char>) -> Seq<char> {
    let rest = match strip_prefix_of(addr, redis_scheme()) {
        Some(r) => r,
        None => addr,
    };
    trim_end_char(rest, '/')
}

/// The Redis URL that names a resolved socket address: `redis://<sock>/`.
pub open spec fn redis_url_of(sock: Seq<char>) -> Seq<char> {
    redis_scheme() + sock + seq!['/']
}

/// The endpoint URI of a gRPC peer at a resolved socket address:
/// `http://<sock>`.
pub open spec fn endpoint_uri_of(sock: Seq<char>) -> Seq<char> {
    http_scheme() + sock
}

/// What trimming keeps: a prefix of the input that does not end with the
/// trimmed character, followed in the input only by that character.
pub proof fn lemma_trim_end_char(s: Seq<char>, c: char)
    ensures
        trim_end_char(s, c).len() <= s.len(),
        trim_end_char(s, c) == s.subrange(0, trim_end_char(s, c).len() as int),
        !(trim_end_char(s, c).len() > 0 && trim_end_char(s, c).last() == c),
        forall|i: int| trim_end_char(s, c).len() <= i < s.len() ==> s[i] == c,
    decreases s.len(),
{
    if s.len() > 0 && s.last() == c {
        lemma_trim_end_char(s.drop_last(), c);
        let t = trim_end_char(s.drop_last(), c);
        assert(t == s.subrange(0, t.len() as int)) by {
            assert(s.drop_last().subrange(0, t.len() as int) =~= s.subrange(0, t.len() as int));
        }
        assert forall|i: int| t.len() <= i < s.len() implies s[i] == c by {
            if i < s.len() - 1 {
                assert(s.drop_last()[i] == s[i]);
            }
        }
    } else {
        assert(s.subrange(0, s.len() as int) =~= s);
    }
}

/// Trimming leaves alone a text that does not end with the trimmed character.
pub proof fn lemma_trim_end_char_noop(s: Seq<char>, c: char)
    requires
        !(s.len() > 0 && s.last() == c),
    ensures
        trim_end_char(s, c) == s,
{
}

/// Trimming twice trims no more than trimming once.
pub proof fn lemma_trim_end_char_idempotent(s: Seq<char>, c: char)
    ensures
        trim_end_char(trim_end_char(s, c), c) == trim_end_char(s, c),
{
    lemma_trim_end_char(s, c);
}

/// The `host:port` read back from the URL built for a socket address is that
/// socket address, less any slashes it ended with.
pub proof fn lemma_host_port_of_redis_url(sock: Seq<char>)
    ensures
        redis_host_port_of(redis_url_of(sock)) == trim_end_char(sock, '/'),
{
    let u = redis_url_of(sock);
    assert(u.subrange(0, 8) =~= redis_scheme());
    assert(u.subrange(8, u.len() as int) =~= sock + seq!['/']);
    assert((sock + seq!['/']).drop_last() =~= sock);
}

/// A socket address that does not end with a slash comes back unchanged from
/// the URL built for it.
pub proof fn lemma_redis_url_round_trip(sock: Seq<char>)
    requires
        !(sock.len() > 0 && sock.last() == '/'),
    ensures
        redis_host_port_of(redis_url_of(sock)) == sock,
{
    lemma_host_port_of_redis_url(sock);
}

/// Feeding a built Redis URL back in builds the same URL again, where the
/// `host:port` it names resolves to itself (as an IP-literal socket address
/// does): the URL is a fixed point.
pub proof fn lemma_redis_url_fixed_point(sock: Seq<char>)
    requires
        !(sock.len() > 0 && sock.last() == '/'),
    ensures
        redis_url_of(redis_host_port_of(redis_url_of(sock))) == redis_url_of(sock),
{
    lemma_redis_url_round_trip(sock);
}

/// The message for an address that resolves to no socket address.
pub open spec fn unresolved_message_of(addr: Seq<char>) -> Seq<char> {
    "cannot resolve "@ + addr
}

/// `r` is `s` with its trailing slashes taken off: a prefix of `s` that does
/// not end with a slash, followed in `s` by slashes only.
pub open spec fn slash_trimmed(r: Seq<char>, s: Seq<char>) -> bool {
    &&& r.len() <= s.len()
    &&& r == s.subrange(0, r.len() as int)
    &&& !(r.len() > 0 && r.last() == '/')
    &&& forall|i: int| r.len() <= i < s.len() ==> s[i] == '/'
}

/// Only one text is `s` with its trailing slashes taken off.
pub proof fn lemma_slash_trimmed_unique(r1: Seq<char>, r2: Seq<char>, s: Seq<char>)
    requires
        slash_trimmed(r1, s),
        slash_trimmed(r2, s),
    ensures
        r1 == r2,
{
    if r1.len() < r2.len() {
        assert(r2[r2.len() - 1] == s[r2.len() - 1]);
        assert(s[r2.len() - 1] == '/');
    } else if r2.len() < r1.len() {
        assert(r1[r1.len() - 1] == s[r1.len() - 1]);
        assert(s[r1.len() - 1] == '/');
    }
}

/// Trimming takes exactly the trailing slashes off.
pub proof fn lemma_trim_is_slash_trimmed(s: Seq<char>)
    ensures
        slash_trimmed(trim_end_char(s, '/'), s),
{
    lemma_trim_end_char(s, '/');
}

/// The `host:port` of an address that starts with `redis://` is the rest of
/// the address with its trailing slashes taken off, whether or not the
/// address ends with a slash; the `host:port` of any other address is the
/// address with its trailing slashes taken off.
pub proof fn lemma_host_port_shape(addr: Seq<char>)
    ensures
        (addr.len() >= 8 && addr.subrange(0, 8) == seq!['r', 'e', 'd', 'i', 's', ':', '/', '/'])
            ==> slash_trimmed(redis_host_port_of(addr), addr.subrange(8, addr.len() as int)),
        !(addr.len() >= 8 && addr.subrange(0, 8) == seq!['r', 'e', 'd', 'i', 's', ':', '/', '/'])
            ==> slash_trimmed(redis_host_port_of(addr), addr),
{
    let rest = match strip_prefix_of(addr, redis_scheme()) {
        Some(r) => r,
        None => addr,
    };
    lemma_trim_end_char(rest, '/');
}

/// For every text `h`, the `host:port` of `redis://` followed by `h` is `h`
/// with its trailing slashes taken off.
pub proof fn lemma_host_port_after_scheme(h: Seq<char>)
    ensures
        slash_trimmed(redis_host_port_of(seq!['r', 'e', 'd', 'i', 's', ':', '/', '/'] + h), h),
        redis_host_port_of(seq!['r', 'e', 'd', 'i', 's', ':', '/', '/'] + h) == trim_end_char(h, '/'),
{
    let addr = seq!['r', 'e', 'd', 'i', 's', ':', '/', '/'] + h;
    assert(addr.subrange(0, 8) =~= seq!['r', 'e', 'd', 'i', 's', ':', '/', '/']);
    assert(addr.subrange(8, addr.len() as int) =~= h);
    lemma_host_port_shape(addr);
    lemma_trim_is_slash_trimmed(h);
    lemma_slash_trimmed_unique(redis_host_port_of(addr), trim_end_char(h, '/'), h);
}

/// The Redis URL for a socket address is the eight characters `redis://`,
/// the socket address, and one slash.
pub proof fn lemma_redis_url_shape(sock: Seq<char>)
    ensures
        redis_url_of(sock).len() == sock.len() + 9,
        redis_url_of(sock).subrange(0, 8) == seq!['r', 'e', 'd', 'i', 's', ':', '/', '/'],
        redis_url_of(sock).subrange(8, sock.len() + 8int) == sock,
        redis_url_of(sock).last() == '/',
{
    assert(redis_url_of(sock).subrange(0, 8) =~= seq!['r', 'e', 'd', 'i', 's', ':', '/', '/']);
    assert(redis_url_of(sock).subrange(8, sock.len() + 8int) =~= sock);
}

/// The endpoint URI for every socket address, IPv4 or bracketed IPv6, is the
/// seven characters `http://` followed by the socket address.
pub proof fn lemma_endpoint_uri_shape(sock: Seq<char>)
    ensures
        endpoint_uri_of(sock).len() == sock.len() + 7,
        endpoint_uri_of(sock).subrange(0, 7) == seq!['h', 't', 't', 'p', ':', '/', '/'],
        endpoint_uri_of(sock).subrange(7, sock.len() + 7int) == sock,
        endpoint_uri_of(sock) == seq!['h', 't', 't', 'p', ':', '/', '/'] + sock,
{
    assert(endpoint_uri_of(sock).subrange(0, 7) =~= seq!['h', 't', 't', 'p', ':', '/', '/']);
    assert(endpoint_uri_of(sock).subrange(7, sock.len() + 7int) =~= sock);
}

fn redis_scheme_chars() -> (v: Vec<char>)
    ensures
        v@ == redis_scheme(),
{
    let v = vec!['r', 'e', 'd', 'i', 's', ':', '/', '/'];
    assert(v@ =~= redis_scheme());
    v
}

/// Whether `s` starts with the characters of `prefix`.
fn starts_with_chars(s: &str, prefix: &Vec<char>) -> (r: bool)
    ensures
        r == (prefix@.len() <= s@.len() && s@.subrange(0, prefix@.len() as int) == prefix@),
{
    let n = s.unicode_len();
    let m = prefix.len();
    if m > n {
        return false;
    }
    let mut i: usize = 0;
    while i < m
        invariant
            i <= m <= n,
            n == s@.len(),
            m == prefix@.len(),
            forall|j: int| 0 <= j < i ==> s@[j] == prefix@[j],
        decreases m - i,
    {
        if s.get_char(i) != prefix[i] {
            assert(s@.subrange(0, m as int)[i as int] != prefix@[i as int]);
            return false;
        }
        i = i + 1;
    }
    assert(s@.subrange(0, m as int) =~= prefix@);
    true
}

/// `s` without its trailing slashes.
fn trim_trailing_slashes(s: &str) -> (r: &str)
    ensures
        r@ == trim_end_char(s@, '/'),
{
    let n = s.unicode_len();
    let mut k: usize = n;
    assert(s@.subrange(0, n as int) =~= s@);
    loop
        invariant
            k <= n,
            n == s@.len(),
            trim_end_char(s@, '/') == trim_end_char(s@.subrange(0, k as int), '/'),
        ensures
            k <= n,
            trim_end_char(s@, '/') == trim_end_char(s@.subrange(0, k as int), '/'),
            k == 0 || s@[k - 1] != '/',
        decreases k,
    {
        if k == 0 {
            break;
        }
        if s.get_char(k - 1) != '/' {
            break;
        }
        assert(s@.subrange(0, k as int).drop_last() =~= s@.subrange(0, k - 1));
        k = k - 1;
    }
    let r = s.substring_char(0, k);
    proof {
        lemma_trim_end_char_noop(s@.subrange(0, k as int), '/');
    }
    r
}

/// The `host:port` part of a Redis address given as `redis://host:port/` or
/// as `host:port`: a leading `redis://` is taken off, then trailing slashes.
pub fn redis_host_port(addr: &str) -> (hp: &str)
    ensures
        hp@ == redis_host_port_of(addr@),
        !(hp@.len() > 0 && hp@.last() == '/'),
        (addr@.len() >= 8 && addr@.subrange(0, 8) == seq!['r', 'e', 'd', 'i', 's', ':', '/', '/'])
            ==> slash_trimmed(hp@, addr@.subrange(8, addr@.len() as int)),
        !(addr@.len() >= 8 && addr@.subrange(0, 8) == seq!['r', 'e', 'd', 'i', 's', ':', '/', '/'])
            ==> slash_trimmed(hp@, addr@),
{
    let scheme = redis_scheme_chars();
    let rest = if starts_with_chars(addr, &scheme) {
        addr.substring_char(scheme.len(), addr.unicode_len())
    } else {
        addr
    };
    let hp = trim_trailing_slashes(rest);
    proof {
        lemma_trim_end_char(rest@, '/');
        lemma_host_port_shape(addr@);
    }
    hp
}

/// The Redis URL for a resolved socket address: `redis://<sock>/`.
pub fn redis_url(sock: &str) -> (url: String)
    ensures
        url@ == redis_url_of(sock@),
        url@ == seq!['r', 'e', 'd', 'i', 's', ':', '/', '/'] + sock@ + seq!['/'],
{
    let mut url = String::from_str("redis://");
    url.append(sock);
    url.append("/");
    proof {
        reveal_strlit("redis://");
        reveal_strlit("/");
        assert(url@ =~= redis_url_of(sock@));
    }
    url
}

/// The endpoint URI for a gRPC peer at a resolved socket address:
/// `http://<sock>`.
pub fn endpoint_uri(sock: &str) -> (uri: String)
    ensures
        uri@ == endpoint_uri_of(sock@),
        uri@ == seq!['h', 't', 't', 'p', ':', '/', '/'] + sock@,
{
    let mut uri = String::from_str("http://");
    uri.append(sock);
    proof {
        reveal_strlit("http://");
        assert(uri@ =~= endpoint_uri_of(sock@));
    }
    uri
}

/// The message for an address that resolves to no socket address:
/// `cannot resolve <addr>`, with the address as it was configured.
pub fn unresolved_message(addr: &str) -> (msg: String)
    ensures
        msg@ == unresolved_message_of(addr@),
{
    let mut msg = String::from_str("cannot resolve ");
    msg.append(addr);
    msg
}

/// The Redis URL for a configured address, from the first socket address
/// that its `host:port` (see `redis_host_port`) resolved to; where it
/// resolved to none, the message that says so.
pub fn redis_url_from_resolution(addr: &str, resolved: Option<&str>) -> (r: Result<String, String>)
    ensures
        match resolved {
            Some(sock) => r is Ok && r->Ok_0@ == redis_url_of(sock@)
                && r->Ok_0@ == seq!['r', 'e', 'd', 'i', 's', ':', '/', '/'] + sock@ + seq!['/'],
            None => r is Err && r->Err_0@ == unresolved_message_of(addr@),
        },
{
    match resolved {
        Some(sock) => Ok(redis_url(sock)),
        None => Err(unresolved_message(addr)),
    }
}

/// The endpoint URI of a gRPC peer at a configured address, from the first
/// socket address that the address resolved to; where it resolved to none,
/// the message that says so.
pub fn endpoint_from_resolution(addr: &str, resolved: Option<&str>) -> (r: Result<String, String>)
    ensures
        match resolved {
            Some(sock) => r is Ok && r->Ok_0@ == endpoint_uri_of(sock@)
                && r->Ok_0@ == seq!['h', 't', 't', 'p', ':', '/', '/'] + sock@,
            None => r is Err && r->Err_0@ == unresolved_message_of(addr@),
        },
{
    match resolved {
        Some(sock) => Ok(endpoint_uri(sock)),
        None => Err(unresolved_message(addr)),
    }
}

} // verus!
