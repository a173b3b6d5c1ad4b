use vstd::prelude::*;

verus! {

/// Default address the backend is expected to bind.
pub const BACKEND_PORT: u16 = 8000;

/// The network address the backend is expected to bind: fixed configuration,
/// never renegotiated while the supervisor lives.
pub struct BackendEndpoint {
    pub host: String,
    pub port: u16,
}

/// The character for one decimal digit.
pub open spec fn digit_char(d: nat) -> char {
    if d == 0 {
        '0'
    } else if d == 1 {
        '1'
    } else if d == 2 {
        '2'
    } else if d == 3 {
        '3'
    } else if d == 4 {
        '4'
    } else if d == 5 {
        '5'
    } else if d == 6 {
        '6'
    } else if d == 7 {
        '7'
    } else if d == 8 {
        '8'
    } else {
        '9'
    }
}

/// The decimal digit characters of `n`, most significant first, with no
/// leading zero except for `n == 0` itself.
pub open spec fn dec_digits(n: nat) -> Seq<char>
    decreases n,
{
    if n < 10 {
        seq![digit_char(n)]
    } else {
        dec_digits(n / 10) + seq![digit_char(n % 10)]
    }
}

/// `host:port`, the form a socket address is written in.
pub open spec fn spec_authority(host: Seq<char>, port: u16) -> Seq<char> {
    host + ":"@ + dec_digits(port as nat)
}

/// `http://host:port{path}`, the URL a request to `path` on the endpoint
/// goes to.
pub open spec fn spec_url(host: Seq<char>, port: u16, path: Seq<char>) -> Seq<char> {
    "http://"@ + spec_authority(host, port) + path
}

/// The one-character string for a decimal digit.
fn digit_str(d: u16) -> (s: &'static str)
    requires
        d < 10,
    ensures
        s@ =~= seq![digit_char(d as nat)],
{
    proof {
        reveal_strlit("0");
        reveal_strlit("1");
        reveal_strlit("2");
        reveal_strlit("3");
        reveal_strlit("4");
        reveal_strlit("5");
        reveal_strlit("6");
        reveal_strlit("7");
        reveal_strlit("8");
        reveal_strlit("9");
    }
    if d == 0 {
        "0"
    } else if d == 1 {
        "1"
    } else if d == 2 {
        "2"
    } else if d == 3 {
        "3"
    } else if d == 4 {
        "4"
    } else if d == 5 {
        "5"
    } else if d == 6 {
        "6"
    } else if d == 7 {
        "7"
    } else if d == 8 {
        "8"
    } else {
        "9"
    }
}

/// Render a port number (or any 16-bit value) in decimal.
pub fn u16_to_dec(n: u16) -> (s: String)
    ensures
        s@ == dec_digits(n as nat),
    decreases n,
{
    if n < 10 {
        String::from_str(digit_str(n))
    } else {
        let mut s = u16_to_dec(n / 10);
        s.append(digit_str(n % 10));
        proof {
            assert(s@ =~= dec_digits(n as nat));
        }
        s
    }
}

/// Whether an HTTP status answers the health check with success: the
/// backend reports readiness with status 200 and nothing else, so any
/// other status — error or redirect alike — counts as not yet healthy.
pub fn is_success_status(status: u16) -> (r: bool)
    ensures
        r == (status == 200),
{
    status == 200
}

impl BackendEndpoint {
    /// An endpoint at the given host and port.
    pub fn new(host: String, port: u16) -> (e: BackendEndpoint)
        ensures
            e.host@ == host@,
            e.port == port,
    {
        BackendEndpoint { host, port }
    }

    /// The loopback endpoint the backend binds by default.
    pub fn local_default() -> (e: BackendEndpoint)
        ensures
            e.host@ == "127.0.0.1"@,
            e.port == BACKEND_PORT,
    {
        BackendEndpoint { host: String::from_str("127.0.0.1"), port: BACKEND_PORT }
    }

    /// `host:port`, the address a socket probe connects to.
    pub fn authority(&self) -> (s: String)
        ensures
            s@ == spec_authority(self.host@, self.port),
    {
        let mut s = String::from_str(self.host.as_str());
        s.append(":");
        let digits = u16_to_dec(self.port);
        s.append(digits.as_str());
        s
    }

    /// `http://host:port{path}`, the URL a request to `path` goes to.
    pub fn url_for(&self, path: &str) -> (s: String)
        ensures
            s@ == spec_url(self.host@, self.port, path@),
    {
        let mut s = String::from_str("http://");
        let authority = self.authority();
        s.append(authority.as_str());
        s.append(path);
        proof {
            assert(s@ =~= spec_url(self.host@, self.port, path@));
        }
        s
    }
}

} // verus!
