//! Splitting libdatachannel-style ICE server URLs.
//!
//! The facade takes ICE servers in libdatachannel's form — one string
//! per server, with any credentials inline — because that is what
//! callers already write. The browser wants them as separate fields, so
//! the web backend splits them.
use vstd::prelude::*;
use vstd::string::*;

verus! {

/// A server URL taken apart into the browser's shape.
#[derive(Debug, PartialEq, Eq)]
pub struct IceServerParts {
    pub urls: Vec<String>,
    pub username: Option<String>,
    pub credential: Option<String>,
}

/// The mathematical value of an [`IceServerParts`]: every string taken
/// as its sequence of characters.
pub struct IceServerSpec {
    pub urls: Seq<Seq<char>>,
    pub username: Option<Seq<char>>,
    pub credential: Option<Seq<char>>,
}

impl View for IceServerParts {
    type V = IceServerSpec;

    open spec fn view(&self) -> IceServerSpec {
        IceServerSpec {
            urls: self.urls.deep_view(),
            username: self.username.deep_view(),
            credential: self.credential.deep_view(),
        }
    }
}

/// A URL handed through untouched: itself as the only URL, no credentials.
pub open spec fn bare_server(url: Seq<char>) -> IceServerSpec {
    IceServerSpec { urls: seq![url], username: None, credential: None }
}

/// What `scheme:username:credential@host` splits into.
///
/// Credentials can only sit after the scheme's colon and before an `@`;
/// a password may itself contain `@`, so the host starts after the last
/// one; and with no colon in the userinfo there is no password to lift
/// out, so the URL is left alone.
pub open spec fn ice_server_spec(url: Seq<char>) -> IceServerSpec {
    match url.index_of_first(':') {
        None => bare_server(url),
        Some(c) => {
            let scheme = url.take(c);
            let rest = url.skip(c + 1);
            match rest.index_of_last('@') {
                None => bare_server(url),
                Some(a) => {
                    let userinfo = rest.take(a);
                    let host = rest.skip(a + 1);
                    match userinfo.index_of_first(':') {
                        None => bare_server(url),
                        Some(u) => IceServerSpec {
                            urls: seq![scheme + seq![':'] + host],
                            username: Some(userinfo.take(u)),
                            credential: Some(userinfo.skip(u + 1)),
                        },
                    }
                },
            }
        },
    }
}

/// True when the URL carries inline credentials that the split lifts out.
pub open spec fn has_inline_credentials(url: Seq<char>) -> bool {
    ice_server_spec(url).username is Some
}

/// Splitting loses nothing: when credentials are lifted out of a URL,
/// the URL is `scheme:username:credential@host` and the browser's URL is
/// `scheme:host`, where the scheme holds no `:`, the username holds no
/// `:`, and the host holds no `@` (it starts after the last one).
pub proof fn lemma_split_reassembles(url: Seq<char>)
    requires
        has_inline_credentials(url),
    ensures
        ({
            let p = ice_server_spec(url);
            exists|scheme: Seq<char>, host: Seq<char>|
                {
                    &&& p.urls == seq![scheme + seq![':'] + host]
                    &&& url == scheme + seq![':'] + p.username.unwrap() + seq![':']
                        + p.credential.unwrap() + seq!['@'] + host
                    &&& !scheme.contains(':')
                    &&& !p.username.unwrap().contains(':')
                    &&& !host.contains('@')
                }
        }),
{
    url.index_of_first_ensures(':');
    let c: int = url.index_of_first(':').unwrap();
    let scheme = url.take(c);
    let rest = url.skip(c + 1);
    rest.index_of_last_ensures('@');
    let a: int = rest.index_of_last('@').unwrap();
    let userinfo = rest.take(a);
    let host = rest.skip(a + 1);
    userinfo.index_of_first_ensures(':');
    let u: int = userinfo.index_of_first(':').unwrap();
    let p = ice_server_spec(url);
    assert(p.username.unwrap() == userinfo.take(u));
    assert(p.credential.unwrap() == userinfo.skip(u + 1));
    assert(userinfo =~= userinfo.take(u) + seq![':'] + userinfo.skip(u + 1));
    assert(rest =~= userinfo + seq!['@'] + host);
    assert(url =~= scheme + seq![':'] + rest);
    assert(url =~= scheme + seq![':'] + p.username.unwrap() + seq![':'] + p.credential.unwrap()
        + seq!['@'] + host);
    assert(!scheme.contains(':')) by {
        if scheme.contains(':') {
            let j = choose|j: int| 0 <= j < scheme.len() && scheme[j] == ':';
            assert(url[j] == ':');
        }
    }
    assert(!p.username.unwrap().contains(':')) by {
        if p.username.unwrap().contains(':') {
            let j = choose|j: int| 0 <= j < u && userinfo.take(u)[j] == ':';
            assert(userinfo[j] == ':');
        }
    }
    assert(!host.contains('@')) by {
        if host.contains('@') {
            let j = choose|j: int| 0 <= j < host.len() && host[j] == '@';
            assert(rest[a + 1 + j] == '@');
        }
    }
}

/// Conversely, every URL of the shape `scheme:user:cred@host`, where the
/// scheme and the user hold no `:` and the host holds no `@`, has its
/// credentials lifted out: the browser gets `scheme:host`, the user as
/// username and the rest as credential, whatever the host looks like and
/// whatever the credential holds.
pub proof fn lemma_inline_credentials_are_lifted(
    scheme: Seq<char>,
    user: Seq<char>,
    cred: Seq<char>,
    host: Seq<char>,
)
    requires
        !scheme.contains(':'),
        !user.contains(':'),
        !host.contains('@'),
    ensures
        ({
            let url = scheme + seq![':'] + user + seq![':'] + cred + seq!['@'] + host;
            &&& has_inline_credentials(url)
            &&& ice_server_spec(url).urls == seq![scheme + seq![':'] + host]
            &&& ice_server_spec(url).username == Some(user)
            &&& ice_server_spec(url).credential == Some(cred)
        }),
{
    let url = scheme + seq![':'] + user + seq![':'] + cred + seq!['@'] + host;
    let c = scheme.len() as int;
    url.index_of_first_ensures(':');
    assert(url[c] == ':');
    match url.index_of_first(':') {
        Some(i) => {
            if i < c {
                assert(url[i] == scheme[i]);
            }
            assert(i == c);
        },
        None => {
            assert(url.contains(':'));
        },
    }
    let rest = url.skip(c + 1);
    assert(rest =~= user + seq![':'] + cred + seq!['@'] + host);
    let a: int = (user.len() + 1 + cred.len()) as int;
    assert(rest[a] == '@');
    rest.index_of_last_ensures('@');
    match rest.index_of_last('@') {
        Some(j) => {
            if j > a {
                assert(rest[j] == host[j - a - 1]);
            }
            assert(j == a);
        },
        None => {
            assert(rest.contains('@'));
        },
    }
    let userinfo = rest.take(a);
    assert(userinfo =~= user + seq![':'] + cred);
    assert(rest.skip(a + 1) =~= host);
    let k0 = user.len() as int;
    assert(userinfo[k0] == ':');
    userinfo.index_of_first_ensures(':');
    match userinfo.index_of_first(':') {
        Some(k) => {
            if k < k0 {
                assert(userinfo[k] == user[k]);
            }
            assert(k == k0);
        },
        None => {
            assert(userinfo.contains(':'));
        },
    }
    assert(userinfo.take(k0) =~= user);
    assert(userinfo.skip(k0 + 1) =~= cred);
    assert(url.take(c) =~= scheme);
}

/// A URL with no `@` in it, which is every `stun:` URL and any `turn:`
/// URL whose credentials come out of band, passes through unchanged; so
/// does one with no `:` at all.
pub proof fn lemma_no_credentials_pass_through(url: Seq<char>)
    requires
        !url.contains('@') || !url.contains(':'),
    ensures
        ice_server_spec(url) == bare_server(url),
        ice_server_spec(url).urls == seq![url],
        ice_server_spec(url).username is None,
        ice_server_spec(url).credential is None,
        !has_inline_credentials(url),
{
    url.index_of_first_ensures(':');
    if let Some(c) = url.index_of_first(':') {
        let rest = url.skip(c + 1);
        rest.index_of_last_ensures('@');
        if let Some(a) = rest.index_of_last('@') {
            assert(url[c + 1 + a] == '@');
        }
    }
}

/// A URL `scheme:userinfo@host` whose userinfo holds no `:` has no
/// password to lift out, and is handed through whole rather than guessed
/// at.
pub proof fn lemma_userinfo_without_password_passes_through(
    scheme: Seq<char>,
    userinfo: Seq<char>,
    host: Seq<char>,
)
    requires
        !scheme.contains(':'),
        !userinfo.contains(':'),
        !host.contains('@'),
    ensures
        ({
            let url = scheme + seq![':'] + userinfo + seq!['@'] + host;
            &&& ice_server_spec(url).urls == seq![url]
            &&& ice_server_spec(url).username is None
            &&& ice_server_spec(url).credential is None
        }),
{
    let url = scheme + seq![':'] + userinfo + seq!['@'] + host;
    let c = scheme.len() as int;
    url.index_of_first_ensures(':');
    assert(url[c] == ':');
    match url.index_of_first(':') {
        Some(i) => {
            if i < c {
                assert(url[i] == scheme[i]);
            }
            assert(i == c);
        },
        None => {
            assert(url.contains(':'));
        },
    }
    let rest = url.skip(c + 1);
    assert(rest =~= userinfo + seq!['@'] + host);
    let a: int = userinfo.len() as int;
    assert(rest[a] == '@');
    rest.index_of_last_ensures('@');
    match rest.index_of_last('@') {
        Some(j) => {
            if j > a {
                assert(rest[j] == host[j - a - 1]);
            }
            assert(j == a);
        },
        None => {
            assert(rest.contains('@'));
        },
    }
    assert(rest.take(a) =~= userinfo);
    userinfo.index_of_first_ensures(':');
}

/// The browser's URL that a split produces carries no credentials any
/// more: splitting it again hands it through unchanged.
pub proof fn lemma_split_is_stable(url: Seq<char>)
    requires
        has_inline_credentials(url),
    ensures
        ice_server_spec(ice_server_spec(url).urls[0]) == bare_server(ice_server_spec(url).urls[0]),
{
    lemma_split_reassembles(url);
    let p = ice_server_spec(url);
    let (scheme, host) = choose|scheme: Seq<char>, host: Seq<char>|
        {
            &&& p.urls == seq![scheme + seq![':'] + host]
            &&& url == scheme + seq![':'] + p.username.unwrap() + seq![':'] + p.credential.unwrap()
                + seq!['@'] + host
            &&& !scheme.contains(':')
            &&& !p.username.unwrap().contains(':')
            &&& !host.contains('@')
        };
    let v = scheme + seq![':'] + host;
    assert(p.urls[0] == v);
    v.index_of_first_ensures(':');
    let c: int = v.index_of_first(':').unwrap();
    assert(v[scheme.len() as int] == ':');
    if c < scheme.len() {
        assert(scheme[c] == ':');
    }
    assert(c == scheme.len());
    assert(v.skip(c + 1) =~= host);
    host.index_of_last_ensures('@');
}

/// Index of the first `c` in `s`, by characters.
fn first_index_of(s: &str, c: char) -> (r: Option<usize>)
    ensures
        r matches Some(i) ==> s@.index_of_first(c) == Some(i as int) && i < s@.len() && s@[i as int] == c,
        r is None ==> s@.index_of_first(c) is None,
{
    let n: usize = s.unicode_len();
    let mut i: usize = 0;
    while i < n
        invariant
            n == s@.len(),
            i <= n,
            forall|j: int| 0 <= j < i ==> s@[j] != c,
        decreases n - i,
    {
        if s.get_char(i) == c {
            proof {
                s@.index_of_first_ensures(c);
            }
            return Some(i);
        }
        i = i + 1;
    }
    proof {
        s@.index_of_first_ensures(c);
    }
    None
}

/// Index of the last `c` in `s`, by characters.
fn last_index_of(s: &str, c: char) -> (r: Option<usize>)
    ensures
        r matches Some(i) ==> s@.index_of_last(c) == Some(i as int) && i < s@.len() && s@[i as int] == c,
        r is None ==> s@.index_of_last(c) is None,
{
    let n: usize = s.unicode_len();
    let mut i: usize = n;
    while i > 0
        invariant
            n == s@.len(),
            i <= n,
            forall|j: int| i <= j < n ==> s@[j] != c,
        decreases i,
    {
        if s.get_char(i - 1) == c {
            proof {
                s@.index_of_last_ensures(c);
            }
            return Some(i - 1);
        }
        i = i - 1;
    }
    proof {
        s@.index_of_last_ensures(c);
    }
    None
}

fn bare(url: &str) -> (r: IceServerParts)
    ensures
        r@ == bare_server(url@),
        r.urls@.len() == 1,
        r.username is None && r.credential is None,
{
    let mut urls: Vec<String> = Vec::new();
    urls.push(url.to_owned());
    let r = IceServerParts { urls, username: None, credential: None };
    assert(r@.urls =~= seq![url@]);
    r
}

/// Split `turn:username:password@host:port` into its parts.
///
/// Anything without inline credentials passes through as a bare URL,
/// which covers every `stun:` server and any `turn:` server whose
/// credentials are supplied out of band.
pub fn parse_ice_server(url: &str) -> (r: IceServerParts)
    ensures
        r@ == ice_server_spec(url@),
        r.urls@.len() == 1,
        r.username is Some <==> r.credential is Some,
        r.username is None ==> r@ == bare_server(url@),
{
    let Some(c) = first_index_of(url, ':') else {
        return bare(url);
    };
    let n: usize = url.unicode_len();
    let scheme = url.substring_char(0, c);
    let rest = url.substring_char(c + 1, n);
    assert(rest@ == url@.skip(c + 1));
    assert(scheme@ == url@.take(c as int));
    let Some(a) = last_index_of(rest, '@') else {
        return bare(url);
    };
    let rest_len: usize = rest.unicode_len();
    let userinfo = rest.substring_char(0, a);
    let host = rest.substring_char(a + 1, rest_len);
    assert(userinfo@ == rest@.take(a as int));
    assert(host@ == rest@.skip(a + 1));
    let Some(u) = first_index_of(userinfo, ':') else {
        return bare(url);
    };
    let userinfo_len: usize = userinfo.unicode_len();
    let username = userinfo.substring_char(0, u);
    let credential = userinfo.substring_char(u + 1, userinfo_len);
    assert(username@ == userinfo@.take(u as int));
    assert(credential@ == userinfo@.skip(u + 1));

    let mut joined = String::from_str(scheme);
    proof {
        reveal_strlit(":");
    }
    joined.append(":");
    joined.append(host);
    assert(joined@ == scheme@ + seq![':'] + host@);
    let mut urls: Vec<String> = Vec::new();
    urls.push(joined);
    let r = IceServerParts {
        urls,
        username: Some(username.to_owned()),
        credential: Some(credential.to_owned()),
    };
    assert(r@.urls =~= seq![scheme@ + seq![':'] + host@]);
    r
}

} // verus!
