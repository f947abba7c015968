//! Ingest configuration: data streams and the address of the socket to connect to.
//!
//! Identifiers are `u128` (UUID bits) and instants microseconds since the epoch.

use vstd::prelude::*;

use crate::environment::{opt_str, socket_path, socket_path_spec};
use crate::text::{clone_opt_string, has_prefix, split_once, strip_prefix, trim, trim_spec};

verus! {

/// Stream data format
#[derive(Clone, Copy, Debug, PartialEq, Eq, Structural)]
pub enum StreamFormat {
    Aprs,
    Adsb,
    Sbs,
}

impl StreamFormat {
    /// The lowercase name of the format, as shown and stored.
    pub fn as_str(&self) -> (r: &'static str)
        ensures
            r@ == match self {
                StreamFormat::Aprs => "aprs"@,
                StreamFormat::Adsb => "adsb"@,
                StreamFormat::Sbs => "sbs"@,
            },
    {
        match self {
            StreamFormat::Aprs => "aprs",
            StreamFormat::Adsb => "adsb",
            StreamFormat::Sbs => "sbs",
        }
    }
}

/// Where to connect to the processing service.
pub enum SocketTarget {
    /// A Unix socket at this path.
    Unix(String),
    /// A TCP address `host:port`.
    Tcp(String),
}

/// Why a socket address was refused.
#[derive(Clone, Copy, Debug, PartialEq, Eq, Structural)]
pub enum SocketAddressError {
    /// `unix://` with an empty path.
    EmptyUnixPath,
    /// `tcp://` without a `:` between host and port.
    MissingPort,
    /// `tcp://` with a blank host.
    EmptyHost,
    /// `tcp://` with a blank port.
    EmptyPort,
    /// `tcp://` with a port that is not a number 0-65535.
    InvalidPort,
    /// Neither `unix://` nor `tcp://`.
    UnknownScheme,
}

/// The target as a plain value.
pub enum TargetView {
    Unix(Seq<char>),
    Tcp(Seq<char>),
}

impl SocketTarget {
    pub open spec fn view(&self) -> TargetView {
        match self {
            SocketTarget::Unix(p) => TargetView::Unix(p@),
            SocketTarget::Tcp(a) => TargetView::Tcp(a@),
        }
    }
}

pub open spec fn is_digit(c: char) -> bool {
    '0' <= c && c <= '9'
}

/// Value of a string of decimal digits.
pub open spec fn digits_value(d: Seq<char>) -> nat
    decreases d.len(),
{
    if d.len() == 0 {
        0
    } else {
        (digits_value(d.drop_last()) * 10 + (d.last() as int - '0' as int)) as nat
    }
}

/// The digits of a port number: an optional leading `+` is dropped.
pub open spec fn port_digits(p: Seq<char>) -> Seq<char> {
    if p.len() > 0 && p[0] == '+' {
        p.drop_first()
    } else {
        p
    }
}

/// What `u16::from_str` accepts: an optional `+`, then one or more ASCII digits whose value
/// fits in 16 bits.
pub open spec fn valid_u16(p: Seq<char>) -> bool {
    let d = port_digits(p);
    &&& d.len() > 0
    &&& forall|i: int| 0 <= i < d.len() ==> is_digit(#[trigger] d[i])
    &&& digits_value(d) <= 65535
}

/// Result of parsing a socket address.
pub open spec fn parse_socket_address_spec(a: Seq<char>) -> Result<TargetView, SocketAddressError> {
    if has_prefix(a, "unix://"@) {
        let path = a.subrange(7, a.len() as int);
        if path.len() == 0 {
            Err(SocketAddressError::EmptyUnixPath)
        } else {
            Ok(TargetView::Unix(path))
        }
    } else if has_prefix(a, "tcp://"@) {
        let hp = a.subrange(6, a.len() as int);
        if forall|i: int| 0 <= i < hp.len() ==> hp[i] != ':' {
            Err(SocketAddressError::MissingPort)
        } else {
            let i = choose|i: int|
                0 <= i < hp.len() && hp[i] == ':' && forall|j: int| 0 <= j < i ==> hp[j] != ':';
            let host = hp.subrange(0, i);
            let port = trim_spec(hp.subrange(i + 1, hp.len() as int));
            if trim_spec(host).len() == 0 {
                Err(SocketAddressError::EmptyHost)
            } else if port.len() == 0 {
                Err(SocketAddressError::EmptyPort)
            } else if !valid_u16(port) {
                Err(SocketAddressError::InvalidPort)
            } else {
                Ok(TargetView::Tcp(hp))
            }
        }
    } else {
        Err(SocketAddressError::UnknownScheme)
    }
}

proof fn lemma_digits_prefix_bounded(d: Seq<char>, k: int)
    requires
        0 <= k <= d.len(),
        forall|i: int| 0 <= i < d.len() ==> is_digit(#[trigger] d[i]),
    ensures
        digits_value(d.subrange(0, k)) <= digits_value(d),
    decreases d.len() - k,
{
    if k < d.len() {
        let e = d.subrange(0, k + 1);
        assert(e.drop_last() =~= d.subrange(0, k));
        assert(is_digit(d[k]));
        lemma_digits_prefix_bounded(d, k + 1);
    } else {
        assert(d.subrange(0, k) =~= d);
    }
}

/// Whether `p` is a valid port number, as `u16::from_str` decides.
fn is_valid_u16(p: &str) -> (r: bool)
    ensures
        r == valid_u16(p@),
{
    let n = p.unicode_len();
    let mut start: usize = 0;
    if n > 0 && p.get_char(0) == '+' {
        start = 1;
    }
    let ghost d = port_digits(p@);
    assert(d =~= p@.subrange(start as int, n as int));
    if start >= n {
        return false;
    }
    let mut acc: u32 = 0;
    let mut i: usize = start;
    while i < n
        invariant
            n == p@.len(),
            start < n,
            start <= i <= n,
            d == p@.subrange(start as int, n as int),
            d == port_digits(p@),
            forall|k: int| 0 <= k < i - start ==> is_digit(#[trigger] d[k]),
            acc as nat == digits_value(d.subrange(0, i - start)),
            acc <= 65535,
        decreases n - i,
    {
        let c = p.get_char(i);
        assert(d[i - start] == p@[i as int]);
        if c < '0' || c > '9' {
            assert(!is_digit(d[i - start]));
            assert(d == port_digits(p@));
            assert(!valid_u16(p@));
            return false;
        }
        let digit = (c as u32) - ('0' as u32);
        let ghost pre = d.subrange(0, i - start + 1);
        assert(pre.drop_last() =~= d.subrange(0, i - start));
        assert(pre.last() == c);
        assert(digits_value(pre) == acc * 10 + digit);
        let next = acc * 10 + digit;
        if next > 65535 {
            proof {
                if forall|k: int| 0 <= k < d.len() ==> is_digit(#[trigger] d[k]) {
                    lemma_digits_prefix_bounded(d, i - start + 1);
                }
            }
            return false;
        }
        acc = next;
        i = i + 1;
    }
    assert(d.subrange(0, i - start) =~= d);
    true
}

/// Parse a socket address string: `unix:///path` or `tcp://host:port`.
pub fn parse_socket_address(addr: &str) -> (r: Result<SocketTarget, SocketAddressError>)
    ensures
        match r {
            Ok(t) => parse_socket_address_spec(addr@) == Ok::<TargetView, SocketAddressError>(
                t.view(),
            ),
            Err(e) => parse_socket_address_spec(addr@) == Err::<TargetView, SocketAddressError>(e),
        },
{
    proof {
        reveal_strlit("unix://");
        reveal_strlit("tcp://");
    }
    if let Some(path) = strip_prefix(addr, "unix://") {
        if path.unicode_len() == 0 {
            return Err(SocketAddressError::EmptyUnixPath);
        }
        Ok(SocketTarget::Unix(String::from_str(path)))
    } else if let Some(host_port) = strip_prefix(addr, "tcp://") {
        let ghost hp = host_port@;
        match split_once(host_port, ':') {
            None => Err(SocketAddressError::MissingPort),
            Some((host, port_str)) => {
                let ghost i = choose|i: int|
                    0 <= i < hp.len() && hp[i] == ':' && (forall|j: int| 0 <= j < i ==> hp[j] != ':')
                        && host@ == hp.subrange(0, i) && port_str@ == hp.subrange(i + 1, hp.len() as int);
                proof {
                    let k = choose|k: int|
                        0 <= k < hp.len() && hp[k] == ':' && forall|j: int| 0 <= j < k ==> hp[j] != ':';
                    if k < i {
                        assert(hp[k] != ':');
                    }
                    if i < k {
                        assert(hp[i] != ':');
                    }
                    assert(k == i);
                }
                if trim(host).unicode_len() == 0 {
                    return Err(SocketAddressError::EmptyHost);
                }
                let port = trim(port_str);
                if port.unicode_len() == 0 {
                    return Err(SocketAddressError::EmptyPort);
                }
                if !is_valid_u16(port) {
                    return Err(SocketAddressError::InvalidPort);
                }
                Ok(SocketTarget::Tcp(String::from_str(host_port)))
            },
        }
    } else {
        Err(SocketAddressError::UnknownScheme)
    }
}

/// Data stream configuration, as served by the API.
#[derive(Clone, Debug)]
pub struct DataStream {
    pub id: u128,
    pub name: String,
    pub format: StreamFormat,
    pub host: String,
    pub port: u16,
    pub enabled: bool,
    pub callsign: Option<String>,
    pub filter: Option<String>,
    pub created_at_us: i64,
    pub updated_at_us: i64,
}

/// Data stream configuration, as stored in the TOML file.
#[derive(Clone, Debug)]
pub struct TomlDataStream {
    pub id: u128,
    pub name: String,
    pub format: StreamFormat,
    pub host: String,
    pub port: u16,
    pub enabled: bool,
    pub callsign: Option<String>,
    pub filter: Option<String>,
    pub created_at_us: i64,
    pub updated_at_us: i64,
}

/// The two forms of a stream carry the same values.
pub open spec fn same_stream(d: DataStream, t: TomlDataStream) -> bool {
    &&& d.id == t.id
    &&& d.name@ == t.name@
    &&& d.format == t.format
    &&& d.host@ == t.host@
    &&& d.port == t.port
    &&& d.enabled == t.enabled
    &&& d.callsign == t.callsign
    &&& d.filter == t.filter
    &&& d.created_at_us == t.created_at_us
    &&& d.updated_at_us == t.updated_at_us
}

impl From<TomlDataStream> for DataStream {
    fn from(t: TomlDataStream) -> (d: Self) {
        DataStream {
            id: t.id,
            name: t.name,
            format: t.format,
            host: t.host,
            port: t.port,
            enabled: t.enabled,
            callsign: t.callsign,
            filter: t.filter,
            created_at_us: t.created_at_us,
            updated_at_us: t.updated_at_us,
        }
    }
}

impl vstd::std_specs::convert::FromSpecImpl<TomlDataStream> for DataStream {
    open spec fn obeys_from_spec() -> bool {
        true
    }

    open spec fn from_spec(t: TomlDataStream) -> DataStream {
        DataStream {
            id: t.id,
            name: t.name,
            format: t.format,
            host: t.host,
            port: t.port,
            enabled: t.enabled,
            callsign: t.callsign,
            filter: t.filter,
            created_at_us: t.created_at_us,
            updated_at_us: t.updated_at_us,
        }
    }
}

impl From<DataStream> for TomlDataStream {
    fn from(d: DataStream) -> (t: Self) {
        TomlDataStream {
            id: d.id,
            name: d.name,
            format: d.format,
            host: d.host,
            port: d.port,
            enabled: d.enabled,
            callsign: d.callsign,
            filter: d.filter,
            created_at_us: d.created_at_us,
            updated_at_us: d.updated_at_us,
        }
    }
}

impl vstd::std_specs::convert::FromSpecImpl<DataStream> for TomlDataStream {
    open spec fn obeys_from_spec() -> bool {
        true
    }

    open spec fn from_spec(d: DataStream) -> TomlDataStream {
        TomlDataStream {
            id: d.id,
            name: d.name,
            format: d.format,
            host: d.host,
            port: d.port,
            enabled: d.enabled,
            callsign: d.callsign,
            filter: d.filter,
            created_at_us: d.created_at_us,
            updated_at_us: d.updated_at_us,
        }
    }
}


impl TomlDataStream {
    /// The API form of this stream.
    pub fn to_data_stream(&self) -> (d: DataStream)
        ensures
            same_stream(d, *self),
    {
        DataStream {
            id: self.id,
            name: self.name.clone(),
            format: self.format,
            host: self.host.clone(),
            port: self.port,
            enabled: self.enabled,
            callsign: clone_opt_string(&self.callsign),
            filter: clone_opt_string(&self.filter),
            created_at_us: self.created_at_us,
            updated_at_us: self.updated_at_us,
        }
    }
}

/// Default delay between reconnection attempts, in seconds.
pub fn default_retry_delay() -> (r: u64)
    ensures
        r == 5,
{
    5
}

/// Top-level ingest configuration file structure
pub struct IngestConfigFile {
    /// Optional instance identifier for running several ingest instances on one host.
    pub instance_id: Option<String>,
    /// Delay between reconnection attempts, in seconds.
    pub retry_delay: u64,
    /// Socket address for connecting to the processing service
    /// (`unix:///path` or `tcp://host:port`; none for the default Unix socket).
    pub socket_address: Option<String>,
    /// Configured streams.
    pub streams: Vec<TomlDataStream>,
}

impl IngestConfigFile {
    /// Get streams as API-layer DataStream values
    pub fn data_streams(&self) -> (r: Vec<DataStream>)
        ensures
            r@.len() == self.streams@.len(),
            forall|i: int| 0 <= i < r@.len() ==> same_stream(#[trigger] r@[i], self.streams@[i]),
    {
        let mut r: Vec<DataStream> = Vec::new();
        let mut i: usize = 0;
        while i < self.streams.len()
            invariant
                i <= self.streams@.len(),
                r@.len() == i,
                forall|k: int| 0 <= k < i ==> same_stream(#[trigger] r@[k], self.streams@[k]),
            decreases self.streams@.len() - i,
        {
            r.push(self.streams[i].to_data_stream());
            i = i + 1;
        }
        r
    }

    /// Parse `socket_address` into a `SocketTarget`; without an address, the default Unix
    /// socket for the environment (`SOAR_ENV` and `USER` are passed in).
    pub fn socket_target(&self, soar_env: Option<&str>, user: Option<&str>) -> (r: Result<
        SocketTarget,
        SocketAddressError,
    >)
        ensures
            self.socket_address is None ==> (r matches Ok(t) && t.view() == TargetView::Unix(
                socket_path_spec(opt_str(soar_env), opt_str(user)),
            )),
            self.socket_address matches Some(a) ==> match r {
                Ok(t) => parse_socket_address_spec(a@) == Ok::<TargetView, SocketAddressError>(
                    t.view(),
                ),
                Err(e) => parse_socket_address_spec(a@) == Err::<TargetView, SocketAddressError>(
                    e,
                ),
            },
    {
        match &self.socket_address {
            None => Ok(SocketTarget::Unix(socket_path(soar_env, user))),
            Some(addr) => parse_socket_address(addr.as_str()),
        }
    }
}


/// Law: a `unix://` address with a non-empty path names that Unix socket.
pub proof fn lemma_unix_address_parses(path: Seq<char>)
    requires
        path.len() > 0,
    ensures
        parse_socket_address_spec("unix://"@ + path) == Ok::<TargetView, SocketAddressError>(
            TargetView::Unix(path),
        ),
{
    reveal_strlit("unix://");
    let a = "unix://"@ + path;
    assert(a.subrange(0, 7) =~= "unix://"@);
    assert(a.subrange(7, a.len() as int) =~= path);
}

/// Law: a `tcp://host:port` address, with a host that has no ':' and is not blank and a
/// port number of at most 65535 (digits without surrounding white space), names that
/// TCP address.
#[verifier::rlimit(40)]
pub proof fn lemma_tcp_address_parses(host: Seq<char>, port: Seq<char>)
    requires
        forall|i: int| 0 <= i < host.len() ==> host[i] != ':',
        trim_spec(host).len() > 0,
        trim_spec(port) == port,
        valid_u16(port),
    ensures
        parse_socket_address_spec("tcp://"@ + host + ":"@ + port) == Ok::<
            TargetView,
            SocketAddressError,
        >(TargetView::Tcp(host + ":"@ + port)),
{
    reveal_strlit("tcp://");
    reveal_strlit("unix://");
    reveal_strlit(":");
    let a = "tcp://"@ + host + ":"@ + port;
    assert(a[0] == 't');
    assert("unix://"@[0] == 'u');
    assert(!has_prefix(a, "unix://"@));
    assert(a.subrange(0, 6) =~= "tcp://"@);
    let hp = a.subrange(6, a.len() as int);
    assert(hp =~= host + ":"@ + port);
    let k = host.len() as int;
    assert(hp[k] == ':');
    assert(forall|j: int| 0 <= j < k ==> hp[j] == host[j]);
    let i = choose|i: int|
        0 <= i < hp.len() && hp[i] == ':' && forall|j: int| 0 <= j < i ==> hp[j] != ':';
    assert(0 <= k < hp.len() && hp[k] == ':' && forall|j: int| 0 <= j < k ==> hp[j] != ':');
    if i < k {
        assert(hp[i] == host[i]);
    }
    if i > k {
        assert(hp[k] != ':');
    }
    assert(i == k);
    assert(hp.subrange(0, k) =~= host);
    assert(hp.subrange(k + 1, hp.len() as int) =~= port);
}

/// Law: an address is accepted exactly when it is `unix://` followed by a non-empty path, or
/// `tcp://` followed by a host that is not blank, the first `:`, and (up to surrounding
/// white space) a port number of at most 65535; the target keeps the path, or the text after
/// `tcp://`, as written.
#[verifier::rlimit(40)]
pub proof fn lemma_socket_address_accepted_iff(a: Seq<char>)
    ensures
        (parse_socket_address_spec(a) is Ok) <==> (
            (has_prefix(a, "unix://"@) && a.len() > 7)
            || (has_prefix(a, "tcp://"@) && exists|i: int|
                6 <= i < a.len() && a[i] == ':' && (forall|j: int| 6 <= j < i ==> a[j] != ':')
                && trim_spec(a.subrange(6, i)).len() > 0
                && valid_u16(trim_spec(a.subrange(i + 1, a.len() as int))))),
        parse_socket_address_spec(a) matches Ok(TargetView::Unix(p)) ==> p == a.subrange(
            7,
            a.len() as int,
        ),
        parse_socket_address_spec(a) matches Ok(TargetView::Tcp(hp)) ==> hp == a.subrange(
            6,
            a.len() as int,
        ),
{
    reveal_strlit("tcp://");
    reveal_strlit("unix://");
    if has_prefix(a, "unix://"@) {
        assert(a[0] == "unix://"@[0]);
        assert(!has_prefix(a, "tcp://"@)) by {
            if has_prefix(a, "tcp://"@) {
                assert(a[0] == "tcp://"@[0]);
            }
        }
    } else if has_prefix(a, "tcp://"@) {
        let hp = a.subrange(6, a.len() as int);
        if forall|i: int| 0 <= i < hp.len() ==> hp[i] != ':' {
            assert forall|i: int| 6 <= i < a.len() implies a[i] != ':' by {
                assert(a[i] == hp[i - 6]);
            }
        } else {
            let i = choose|i: int|
                0 <= i < hp.len() && hp[i] == ':' && forall|j: int| 0 <= j < i ==> hp[j] != ':';
            let w = choose|w: int| 0 <= w < hp.len() && hp[w] == ':';
            assert(exists|i: int|
                0 <= i < hp.len() && hp[i] == ':' && forall|j: int| 0 <= j < i ==> hp[j] != ':')
                by {
                lemma_first_colon(hp, w);
            }
            assert(a.subrange(6, i + 6) =~= hp.subrange(0, i));
            assert(a.subrange(i + 7, a.len() as int) =~= hp.subrange(i + 1, hp.len() as int));
            assert(a[i + 6] == ':');
            assert(forall|j: int| 6 <= j < i + 6 ==> a[j] == hp[j - 6]);
            let port = trim_spec(hp.subrange(i + 1, hp.len() as int));
            if exists|k: int|
                6 <= k < a.len() && a[k] == ':' && (forall|j: int| 6 <= j < k ==> a[j] != ':')
                && trim_spec(a.subrange(6, k)).len() > 0
                && valid_u16(trim_spec(a.subrange(k + 1, a.len() as int))) {
                let k = choose|k: int|
                    6 <= k < a.len() && a[k] == ':' && (forall|j: int| 6 <= j < k ==> a[j] != ':')
                    && trim_spec(a.subrange(6, k)).len() > 0
                    && valid_u16(trim_spec(a.subrange(k + 1, a.len() as int)));
                if k < i + 6 {
                    assert(hp[k - 6] == a[k]);
                }
                if k > i + 6 {
                    assert(a[i + 6] != ':');
                }
                assert(k == i + 6);
            }
            if valid_u16(port) {
                assert(port.len() > 0);
            }
        }
    }
}

proof fn lemma_first_colon(hp: Seq<char>, w: int)
    requires
        0 <= w < hp.len(),
        hp[w] == ':',
    ensures
        exists|i: int|
            0 <= i < hp.len() && hp[i] == ':' && forall|j: int| 0 <= j < i ==> hp[j] != ':',
    decreases w,
{
    if exists|j: int| 0 <= j < w && hp[j] == ':' {
        let j = choose|j: int| 0 <= j < w && hp[j] == ':';
        lemma_first_colon(hp, j);
    } else {
        assert(0 <= w < hp.len() && hp[w] == ':' && forall|j: int| 0 <= j < w ==> hp[j] != ':');
    }
}

/// Law: converting a stored stream to its API form and back gives the same stream.
pub proof fn lemma_stream_conversion_roundtrip(t: TomlDataStream)
    ensures
        <TomlDataStream as vstd::std_specs::convert::FromSpec<DataStream>>::from_spec(
            <DataStream as vstd::std_specs::convert::FromSpec<TomlDataStream>>::from_spec(t),
        ) == t,
{
}

} // verus!
