use vstd::prelude::*;
use vstd::slice::slice_to_vec;
use crate::service::Service;
use crate::text::{
    ascii_bytes, ascii_bytes_of, chars_of, contains, decode_lossy, has_prefix, has_substring,
    lossy_text, lowercase, lowercase_text, starts_with,
};

verus! {

/// Seconds that every read and write of a fingerprinting probe may wait.
pub const PROBE_IO_TIMEOUT_SECS: u64 = 3;

/// Number of probes in the fingerprinting chain.
pub const PROBE_COUNT: usize = 10;

/// One step of the fingerprinting chain, in the order in which they run.
#[derive(Clone, Copy, Debug, PartialEq, Eq, Structural)]
pub enum Probe {
    /// Wait for an unsolicited banner; nothing is sent.
    Banner,
    HttpGet,
    HttpOptions,
    MySqlHandshake,
    PostgresStartup,
    RedisPing,
    MongoIsMaster,
    SmtpEhlo,
    Pop3User,
    ImapCapability,
}

/// The legacy-wire-protocol `isMaster` query against `admin.$cmd`.
pub open spec fn mongo_query() -> Seq<u8> {
    seq![
        0x3au8, 0x00, 0x00, 0x00, 0x01, 0x00, 0x00, 0x00, 0x00, 0x00, 0x00, 0x00, 0xd4, 0x07,
        0x00, 0x00, 0x00, 0x00, 0x00, 0x00, 0x61, 0x64, 0x6d, 0x69, 0x6e, 0x2e, 0x24, 0x63,
        0x6d, 0x64, 0x00, 0x00, 0x00, 0x00, 0x00, 0x01, 0x00, 0x00, 0x00, 0x13, 0x00, 0x00,
        0x00, 0x10, 0x69, 0x73, 0x6d, 0x61, 0x73, 0x74, 0x65, 0x72, 0x00, 0x01, 0x00, 0x00,
        0x00, 0x00,
    ]
}

/// The PostgreSQL startup packet: length 8, request code 1234/5679.
pub open spec fn postgres_startup() -> Seq<u8> {
    seq![0x00u8, 0x00, 0x00, 0x08, 0x04, 0xd2, 0x16, 0x2f]
}

impl Probe {
    /// Position of the probe in the chain.
    pub open spec fn index(self) -> nat {
        match self {
            Probe::Banner => 0,
            Probe::HttpGet => 1,
            Probe::HttpOptions => 2,
            Probe::MySqlHandshake => 3,
            Probe::PostgresStartup => 4,
            Probe::RedisPing => 5,
            Probe::MongoIsMaster => 6,
            Probe::SmtpEhlo => 7,
            Probe::Pop3User => 8,
            Probe::ImapCapability => 9,
        }
    }

    pub open spec fn spec_next(self) -> Option<Probe> {
        match self {
            Probe::Banner => Some(Probe::HttpGet),
            Probe::HttpGet => Some(Probe::HttpOptions),
            Probe::HttpOptions => Some(Probe::MySqlHandshake),
            Probe::MySqlHandshake => Some(Probe::PostgresStartup),
            Probe::PostgresStartup => Some(Probe::RedisPing),
            Probe::RedisPing => Some(Probe::MongoIsMaster),
            Probe::MongoIsMaster => Some(Probe::SmtpEhlo),
            Probe::SmtpEhlo => Some(Probe::Pop3User),
            Probe::Pop3User => Some(Probe::ImapCapability),
            Probe::ImapCapability => None,
        }
    }

    /// The probe that runs after this one, if any.
    pub fn next(self) -> (r: Option<Probe>)
        ensures
            r == self.spec_next(),
    {
        match self {
            Probe::Banner => Some(Probe::HttpGet),
            Probe::HttpGet => Some(Probe::HttpOptions),
            Probe::HttpOptions => Some(Probe::MySqlHandshake),
            Probe::MySqlHandshake => Some(Probe::PostgresStartup),
            Probe::PostgresStartup => Some(Probe::RedisPing),
            Probe::RedisPing => Some(Probe::MongoIsMaster),
            Probe::MongoIsMaster => Some(Probe::SmtpEhlo),
            Probe::SmtpEhlo => Some(Probe::Pop3User),
            Probe::Pop3User => Some(Probe::ImapCapability),
            Probe::ImapCapability => None,
        }
    }

    pub open spec fn spec_read_limit(self) -> usize {
        match self {
            Probe::Banner | Probe::HttpGet | Probe::HttpOptions => 1024,
            Probe::MySqlHandshake | Probe::PostgresStartup | Probe::MongoIsMaster
            | Probe::Pop3User => 256,
            Probe::RedisPing => 64,
            Probe::SmtpEhlo | Probe::ImapCapability => 512,
        }
    }

    /// The most bytes of reply that the probe reads.
    pub fn read_limit(self) -> (r: usize)
        ensures
            r == self.spec_read_limit(),
    {
        match self {
            Probe::Banner | Probe::HttpGet | Probe::HttpOptions => 1024,
            Probe::MySqlHandshake | Probe::PostgresStartup | Probe::MongoIsMaster
            | Probe::Pop3User => 256,
            Probe::RedisPing => 64,
            Probe::SmtpEhlo | Probe::ImapCapability => 512,
        }
    }

    pub open spec fn spec_payload(self) -> Seq<u8> {
        match self {
            Probe::Banner => seq![],
            Probe::HttpGet => ascii_bytes(
                "GET / HTTP/1.1\r\nHost: localhost\r\nConnection: close\r\n\r\n"@,
            ),
            Probe::HttpOptions => ascii_bytes(
                "OPTIONS / HTTP/1.1\r\nHost: localhost\r\nConnection: close\r\n\r\n"@,
            ),
            Probe::MySqlHandshake => seq![0x00u8],
            Probe::PostgresStartup => postgres_startup(),
            Probe::RedisPing => ascii_bytes("*1\r\n$4\r\nPING\r\n"@),
            Probe::MongoIsMaster => mongo_query(),
            Probe::SmtpEhlo => ascii_bytes("EHLO localhost\r\n"@),
            Probe::Pop3User => ascii_bytes("USER test\r\n"@),
            Probe::ImapCapability => ascii_bytes("A001 CAPABILITY\r\n"@),
        }
    }

    /// The bytes that the probe sends before it reads; empty for the banner.
    pub fn payload(self) -> (r: Vec<u8>)
        ensures
            r@ == self.spec_payload(),
    {
        match self {
            Probe::Banner => Vec::new(),
            Probe::HttpGet => ascii_bytes_of(
                "GET / HTTP/1.1\r\nHost: localhost\r\nConnection: close\r\n\r\n",
            ),
            Probe::HttpOptions => ascii_bytes_of(
                "OPTIONS / HTTP/1.1\r\nHost: localhost\r\nConnection: close\r\n\r\n",
            ),
            Probe::MySqlHandshake => {
                let mut r: Vec<u8> = Vec::new();
                r.push(0x00u8);
                assert(r@ =~= seq![0x00u8]);
                r
            },
            Probe::PostgresStartup => {
                let a: [u8; 8] = [0x00u8, 0x00, 0x00, 0x08, 0x04, 0xd2, 0x16, 0x2f];
                let r = slice_to_vec(&a);
                assert(r@ =~= postgres_startup());
                r
            },
            Probe::RedisPing => ascii_bytes_of("*1\r\n$4\r\nPING\r\n"),
            Probe::MongoIsMaster => {
                let a: [u8; 58] = [
                    0x3au8, 0x00, 0x00, 0x00, 0x01, 0x00, 0x00, 0x00, 0x00, 0x00, 0x00, 0x00,
                    0xd4, 0x07, 0x00, 0x00, 0x00, 0x00, 0x00, 0x00, 0x61, 0x64, 0x6d, 0x69,
                    0x6e, 0x2e, 0x24, 0x63, 0x6d, 0x64, 0x00, 0x00, 0x00, 0x00, 0x00, 0x01,
                    0x00, 0x00, 0x00, 0x13, 0x00, 0x00, 0x00, 0x10, 0x69, 0x73, 0x6d, 0x61,
                    0x73, 0x74, 0x65, 0x72, 0x00, 0x01, 0x00, 0x00, 0x00, 0x00,
                ];
                let r = slice_to_vec(&a);
                assert(r@ =~= mongo_query());
                r
            },
            Probe::SmtpEhlo => ascii_bytes_of("EHLO localhost\r\n"),
            Probe::Pop3User => ascii_bytes_of("USER test\r\n"),
            Probe::ImapCapability => ascii_bytes_of("A001 CAPABILITY\r\n"),
        }
    }
}

/// What a lowercased banner reveals, checked in a fixed priority order.
pub open spec fn banner_rule(lower: Seq<char>) -> Option<Service> {
    if has_substring(lower, "ssh-"@) {
        Some(Service::Ssh)
    } else if has_substring(lower, "220"@) && has_substring(lower, "ftp"@) {
        Some(Service::Ftp)
    } else if has_substring(lower, "220"@) && (has_substring(lower, "smtp"@)
        || has_substring(lower, "mail"@)) {
        Some(Service::Smtp)
    } else if has_substring(lower, "* ok"@) && has_substring(lower, "imap"@) {
        Some(Service::Imap)
    } else if has_substring(lower, "+ok"@) && has_substring(lower, "pop"@) {
        Some(Service::Pop3)
    } else if has_substring(lower, "telnet"@) || has_substring(lower, "login:"@) {
        Some(Service::Telnet)
    } else {
        None
    }
}

/// The web server that a lowercased HTTP response names in its `Server:` header.
pub open spec fn http_server_rule(lower: Seq<char>) -> Service {
    if has_substring(lower, "server: nginx"@) {
        Service::HttpNginx
    } else if has_substring(lower, "server: apache"@) {
        Service::HttpApache
    } else if has_substring(lower, "server: microsoft-iis"@) {
        Service::HttpIis
    } else if has_substring(lower, "server: caddy"@) {
        Service::HttpCaddy
    } else {
        Service::Http
    }
}

/// What a reply to an HTTP request reveals.
pub open spec fn http_rule(text: Seq<char>, lower: Seq<char>) -> Option<Service> {
    if has_prefix(text, "HTTP/"@) {
        Some(http_server_rule(lower))
    } else if has_substring(text, "400 Bad Request"@) || has_substring(text, "HTTP"@) {
        Some(Service::Http)
    } else {
        None
    }
}

/// What the reply to probe `p` reveals, from its bytes, their decoded text and
/// the lowercase form of that text.
pub open spec fn reply_rule(
    p: Probe,
    bytes: Seq<u8>,
    text: Seq<char>,
    lower: Seq<char>,
) -> Option<Service> {
    match p {
        Probe::Banner => banner_rule(lower),
        Probe::HttpGet | Probe::HttpOptions => http_rule(text, lower),
        Probe::MySqlHandshake => if bytes.len() > 4 && (has_substring(text, "mysql"@)
            || bytes[4] == 10) {
            Some(Service::MySql)
        } else {
            None
        },
        Probe::PostgresStartup => if bytes.len() > 0 && (bytes[0] == 0x52 || bytes[0] == 0x45) {
            Some(Service::PostgreSql)
        } else {
            None
        },
        Probe::RedisPing => if has_substring(text, "+PONG"@) || has_substring(text, "-NOAUTH"@) {
            Some(Service::Redis)
        } else {
            None
        },
        Probe::MongoIsMaster => if has_substring(text, "ismaster"@)
            || has_substring(text, "mongodb"@) {
            Some(Service::MongoDb)
        } else {
            None
        },
        Probe::SmtpEhlo => if has_substring(text, "250"@) && (has_substring(text, "smtp"@)
            || has_substring(text, "mail"@)) {
            Some(Service::Smtp)
        } else {
            None
        },
        Probe::Pop3User => if has_prefix(text, "+OK"@) || has_prefix(text, "-ERR"@) {
            Some(Service::Pop3)
        } else {
            None
        },
        Probe::ImapCapability => if has_substring(text, "CAPABILITY"@)
            || has_substring(text, "IMAP4"@) {
            Some(Service::Imap)
        } else {
            None
        },
    }
}

/// What the reply to probe `p` reveals. No reply (a failed write or read, or
/// nothing read) reveals nothing.
pub open spec fn reply_label(p: Probe, reply: Seq<u8>) -> Option<Service> {
    if reply.len() == 0 {
        None
    } else {
        reply_rule(p, reply, lossy_text(reply), lowercase_text(lossy_text(reply)))
    }
}

/// Applies the matching rule of probe `p` to a reply, given the reply's
/// decoded text and the lowercase form of that text.
pub fn classify_text(p: Probe, reply: &[u8], text: &str, lower: &str) -> (r: Option<Service>)
    ensures
        r == reply_rule(p, reply@, text@, lower@),
{
    let t = chars_of(text);
    let l = chars_of(lower);
    match p {
        Probe::Banner => {
            if contains(&l, "ssh-") {
                Some(Service::Ssh)
            } else if contains(&l, "220") && contains(&l, "ftp") {
                Some(Service::Ftp)
            } else if contains(&l, "220") && (contains(&l, "smtp") || contains(&l, "mail")) {
                Some(Service::Smtp)
            } else if contains(&l, "* ok") && contains(&l, "imap") {
                Some(Service::Imap)
            } else if contains(&l, "+ok") && contains(&l, "pop") {
                Some(Service::Pop3)
            } else if contains(&l, "telnet") || contains(&l, "login:") {
                Some(Service::Telnet)
            } else {
                None
            }
        },
        Probe::HttpGet | Probe::HttpOptions => {
            if starts_with(&t, "HTTP/") {
                if contains(&l, "server: nginx") {
                    Some(Service::HttpNginx)
                } else if contains(&l, "server: apache") {
                    Some(Service::HttpApache)
                } else if contains(&l, "server: microsoft-iis") {
                    Some(Service::HttpIis)
                } else if contains(&l, "server: caddy") {
                    Some(Service::HttpCaddy)
                } else {
                    Some(Service::Http)
                }
            } else if contains(&t, "400 Bad Request") || contains(&t, "HTTP") {
                Some(Service::Http)
            } else {
                None
            }
        },
        Probe::MySqlHandshake => {
            if reply.len() > 4 && (contains(&t, "mysql") || reply[4] == 10) {
                Some(Service::MySql)
            } else {
                None
            }
        },
        Probe::PostgresStartup => {
            if reply.len() > 0 && (reply[0] == 0x52 || reply[0] == 0x45) {
                Some(Service::PostgreSql)
            } else {
                None
            }
        },
        Probe::RedisPing => {
            if contains(&t, "+PONG") || contains(&t, "-NOAUTH") {
                Some(Service::Redis)
            } else {
                None
            }
        },
        Probe::MongoIsMaster => {
            if contains(&t, "ismaster") || contains(&t, "mongodb") {
                Some(Service::MongoDb)
            } else {
                None
            }
        },
        Probe::SmtpEhlo => {
            if contains(&t, "250") && (contains(&t, "smtp") || contains(&t, "mail")) {
                Some(Service::Smtp)
            } else {
                None
            }
        },
        Probe::Pop3User => {
            if starts_with(&t, "+OK") || starts_with(&t, "-ERR") {
                Some(Service::Pop3)
            } else {
                None
            }
        },
        Probe::ImapCapability => {
            if contains(&t, "CAPABILITY") || contains(&t, "IMAP4") {
                Some(Service::Imap)
            } else {
                None
            }
        },
    }
}

/// What the reply to probe `p` reveals; an empty reply stands for no reply.
pub fn classify_reply(p: Probe, reply: &[u8]) -> (r: Option<Service>)
    ensures
        r == reply_label(p, reply@),
{
    if reply.len() == 0 {
        return None;
    }
    let text = decode_lossy(reply);
    let lower = lowercase(text.as_str());
    classify_text(p, reply, text.as_str(), lower.as_str())
}

/// The state of a fingerprinting session: a probe to run next, or the
/// service, which is final once found.
#[derive(Clone, Copy, Debug, PartialEq, Eq, Structural)]
pub enum Fingerprint {
    Probing(Probe),
    Identified(Service),
}

/// The session state after probe `p` got `reply`: the first match wins;
/// with no match the next probe runs; after the last, the service is unknown.
pub open spec fn after_reply(p: Probe, reply: Seq<u8>) -> Fingerprint {
    match reply_label(p, reply) {
        Some(s) => Fingerprint::Identified(s),
        None => match p.spec_next() {
            Some(q) => Fingerprint::Probing(q),
            None => Fingerprint::Identified(Service::Unknown),
        },
    }
}

impl Fingerprint {
    /// A new session, which first waits for a banner.
    pub fn start() -> (r: Fingerprint)
        ensures
            r == Fingerprint::Probing(Probe::Banner),
    {
        Fingerprint::Probing(Probe::Banner)
    }

    /// Feeds the reply to probe `p` (empty where the write or the read
    /// failed) and returns the next state.
    pub fn advance(p: Probe, reply: &[u8]) -> (r: Fingerprint)
        ensures
            r == after_reply(p, reply@),
    {
        match classify_reply(p, reply) {
            Some(s) => Fingerprint::Identified(s),
            None => match p.next() {
                Some(q) => Fingerprint::Probing(q),
                None => Fingerprint::Identified(Service::Unknown),
            },
        }
    }
}

/// The `i`-th reply of a recorded session; one that is missing counts as empty.
pub open spec fn reply_in(replies: Seq<Seq<u8>>, i: int) -> Seq<u8> {
    if 0 <= i < replies.len() {
        replies[i]
    } else {
        seq![]
    }
}

/// The label that a session reaches from probe `p` on, where the reply to
/// each probe is the one at the probe's index in `replies`.
pub open spec fn label_from(p: Probe, replies: Seq<Seq<u8>>) -> Service
    decreases PROBE_COUNT - p.index(),
{
    match reply_label(p, reply_in(replies, p.index() as int)) {
        Some(s) => s,
        None => match p.spec_next() {
            Some(q) => label_from(q, replies),
            None => Service::Unknown,
        },
    }
}

/// The label of a whole session whose replies, in probe order, are `replies`.
pub open spec fn session_label(replies: Seq<Seq<u8>>) -> Service {
    label_from(Probe::Banner, replies)
}

/// Runs a whole session on recorded replies, the `i`-th being the reply to
/// the `i`-th probe sent; missing ones count as empty.
pub fn identify(replies: &Vec<Vec<u8>>) -> (r: Service)
    ensures
        r == session_label(replies.deep_view()),
{
    let ghost t = replies.deep_view();
    let empty: Vec<u8> = Vec::new();
    let mut state = Fingerprint::start();
    let mut i: usize = 0;
    while i < PROBE_COUNT
        invariant
            t == replies.deep_view(),
            empty@.len() == 0,
            i <= PROBE_COUNT,
            match state {
                Fingerprint::Probing(p) => p.index() == i && label_from(p, t) == session_label(t),
                Fingerprint::Identified(s) => s == session_label(t),
            },
        decreases PROBE_COUNT - i,
    {
        match state {
            Fingerprint::Identified(s) => {
                return s;
            },
            Fingerprint::Probing(p) => {
                let reply: &[u8] = if i < replies.len() {
                    replies[i].as_slice()
                } else {
                    empty.as_slice()
                };
                assert(reply@ == reply_in(t, i as int));
                state = Fingerprint::advance(p, reply);
                i = i + 1;
            },
        }
    }
    match state {
        Fingerprint::Identified(s) => s,
        Fingerprint::Probing(_) => Service::Unknown,
    }
}

proof fn lemma_label_from_same_replies(p: Probe, a: Seq<Seq<u8>>, b: Seq<Seq<u8>>)
    requires
        forall|i: int| 0 <= i < PROBE_COUNT ==> reply_in(a, i) == reply_in(b, i),
    ensures
        label_from(p, a) == label_from(p, b),
    decreases PROBE_COUNT - p.index(),
{
    assert(reply_in(a, p.index() as int) == reply_in(b, p.index() as int));
    if let Some(q) = p.spec_next() {
        lemma_label_from_same_replies(q, a, b);
    }
}

/// Replaying the same replies gives the same label: two sessions whose replies
/// agree on every probe of the chain are labelled alike, whatever else differs.
pub proof fn lemma_replay_same_label(a: Seq<Seq<u8>>, b: Seq<Seq<u8>>)
    requires
        forall|i: int| 0 <= i < PROBE_COUNT ==> reply_in(a, i) == reply_in(b, i),
    ensures
        session_label(a) == session_label(b),
{
    lemma_label_from_same_replies(Probe::Banner, a, b);
}

} // verus!
