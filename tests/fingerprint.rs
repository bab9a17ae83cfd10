use port_cat::fingerprint::{classify_reply, classify_text, identify, Fingerprint, Probe};
use port_cat::service::Service;

fn session(replies: &[&[u8]]) -> Vec<Vec<u8>> {
    replies.iter().map(|r| r.to_vec()).collect()
}

#[test]
fn smtp_banner_is_identified_passively() {
    let next = Fingerprint::advance(Probe::Banner, b"220 mail.example.com ESMTP ready\r\n");
    assert_eq!(next, Fingerprint::Identified(Service::Smtp));
    assert_eq!(identify(&session(&[b"220 mail.example.com ESMTP ready\r\n"])), Service::Smtp);
}

#[test]
fn banner_without_match_moves_to_http() {
    assert_eq!(
        Fingerprint::advance(Probe::Banner, b"hello there\r\n"),
        Fingerprint::Probing(Probe::HttpGet)
    );
    assert_eq!(Fingerprint::advance(Probe::Banner, b""), Fingerprint::Probing(Probe::HttpGet));
}

#[test]
fn banner_rules_in_priority_order() {
    assert_eq!(classify_reply(Probe::Banner, b"SSH-2.0-OpenSSH_9.6\r\n"), Some(Service::Ssh));
    assert_eq!(classify_reply(Probe::Banner, b"220 ProFTPD Server ready\r\n"), Some(Service::Ftp));
    assert_eq!(classify_reply(Probe::Banner, b"220 ftp and mail\r\n"), Some(Service::Ftp));
    assert_eq!(
        classify_reply(Probe::Banner, b"* OK IMAP4rev1 Service Ready\r\n"),
        Some(Service::Imap)
    );
    assert_eq!(classify_reply(Probe::Banner, b"+OK POP3 server ready\r\n"), Some(Service::Pop3));
    assert_eq!(classify_reply(Probe::Banner, b"Ubuntu 22.04\r\nlogin: "), Some(Service::Telnet));
    assert_eq!(classify_reply(Probe::Banner, b"Welcome to Telnet"), Some(Service::Telnet));
    assert_eq!(classify_reply(Probe::Banner, b"220 hello\r\n"), None);
}

#[test]
fn banner_match_needs_lowercasing() {
    // "SSH-" only matches once the banner is lowercased.
    assert_eq!(classify_reply(Probe::Banner, b"SSH-2.0-X"), Some(Service::Ssh));
    assert_eq!(classify_text(Probe::Banner, b"SSH-2.0-X", "SSH-2.0-X", "SSH-2.0-X"), None);
    assert_eq!(
        classify_text(Probe::Banner, b"SSH-2.0-X", "SSH-2.0-X", "ssh-2.0-x"),
        Some(Service::Ssh)
    );
}

#[test]
fn replies_are_decoded_lossily() {
    assert_eq!(classify_reply(Probe::RedisPing, b"\xff\xfe+PONG\r\n"), Some(Service::Redis));
    assert_eq!(classify_reply(Probe::Banner, b"\xc3\x28 ssh-2.0"), Some(Service::Ssh));
}

#[test]
fn http_server_labels() {
    assert_eq!(
        classify_reply(Probe::HttpGet, b"HTTP/1.1 200 OK\r\nServer: nginx\r\n\r\n"),
        Some(Service::HttpNginx)
    );
    assert_eq!(
        classify_reply(Probe::HttpGet, b"HTTP/1.1 200 OK\r\nServer: Apache\r\n\r\n"),
        Some(Service::HttpApache)
    );
    assert_eq!(
        classify_reply(Probe::HttpGet, b"HTTP/1.1 200 OK\r\nServer: Microsoft-IIS/10.0\r\n\r\n"),
        Some(Service::HttpIis)
    );
    assert_eq!(
        classify_reply(Probe::HttpOptions, b"HTTP/1.1 204 No Content\r\nServer: Caddy\r\n\r\n"),
        Some(Service::HttpCaddy)
    );
    assert_eq!(
        classify_reply(Probe::HttpGet, b"HTTP/1.1 200 OK\r\nServer: lighttpd\r\n\r\n"),
        Some(Service::Http)
    );
    assert_eq!(classify_reply(Probe::HttpGet, b"HTTP/1.0 200 OK\r\n\r\n"), Some(Service::Http));
}

#[test]
fn http_loose_matches() {
    assert_eq!(classify_reply(Probe::HttpGet, b"<html>400 Bad Request</html>"), Some(Service::Http));
    assert_eq!(classify_reply(Probe::HttpGet, b"garbage HTTP garbage"), Some(Service::Http));
    assert_eq!(classify_reply(Probe::HttpGet, b"http/1.1 200 ok"), None);
    assert_eq!(classify_reply(Probe::HttpGet, b""), None);
}

#[test]
fn http_get_then_options() {
    assert_eq!(
        Fingerprint::advance(Probe::HttpGet, b"nothing useful"),
        Fingerprint::Probing(Probe::HttpOptions)
    );
    let label = identify(&session(&[b"", b"", b"HTTP/1.1 200 OK\r\nServer: nginx\r\n\r\n"]));
    assert_eq!(label, Service::HttpNginx);
}

#[test]
fn redis_found_after_silent_banner() {
    let label = identify(&session(&[b"", b"", b"", b"", b"", b"+PONG\r\n"]));
    assert_eq!(label, Service::Redis);
    let auth = identify(&session(&[b"", b"", b"", b"", b"", b"-NOAUTH Authentication required.\r\n"]));
    assert_eq!(auth, Service::Redis);
}

#[test]
fn database_rules() {
    assert_eq!(
        classify_reply(Probe::MySqlHandshake, b"\x4a\x00\x00\x00\x0a8.0.36\x00"),
        Some(Service::MySql)
    );
    assert_eq!(
        classify_reply(Probe::MySqlHandshake, b"xxxxx is not allowed to connect to this MySQL server mysql"),
        Some(Service::MySql)
    );
    assert_eq!(classify_reply(Probe::MySqlHandshake, b"\x00\x00\x00\x00"), None);
    assert_eq!(classify_reply(Probe::MySqlHandshake, b"\x00\x00\x00\x00\x0b"), None);
    assert_eq!(classify_reply(Probe::PostgresStartup, b"R\x00\x00\x00\x08"), Some(Service::PostgreSql));
    assert_eq!(classify_reply(Probe::PostgresStartup, b"EFATAL"), Some(Service::PostgreSql));
    assert_eq!(classify_reply(Probe::PostgresStartup, b"N"), None);
    assert_eq!(classify_reply(Probe::RedisPing, b"+OK\r\n"), None);
    assert_eq!(
        classify_reply(Probe::MongoIsMaster, b"\x00\x00\x00\x00{ismaster: true}"),
        Some(Service::MongoDb)
    );
    assert_eq!(classify_reply(Probe::MongoIsMaster, b"this is mongodb"), Some(Service::MongoDb));
    assert_eq!(classify_reply(Probe::MongoIsMaster, b"isMaster"), None);
}

#[test]
fn mail_rules() {
    assert_eq!(
        classify_reply(Probe::SmtpEhlo, b"250-mail.example.com Hello\r\n"),
        Some(Service::Smtp)
    );
    assert_eq!(classify_reply(Probe::SmtpEhlo, b"250 SMTP OK\r\n"), None);
    assert_eq!(classify_reply(Probe::Pop3User, b"+OK send PASS\r\n"), Some(Service::Pop3));
    assert_eq!(classify_reply(Probe::Pop3User, b"-ERR unknown\r\n"), Some(Service::Pop3));
    assert_eq!(classify_reply(Probe::Pop3User, b" +OK\r\n"), None);
    assert_eq!(
        classify_reply(Probe::ImapCapability, b"* CAPABILITY IMAP4rev1\r\n"),
        Some(Service::Imap)
    );
    assert_eq!(classify_reply(Probe::ImapCapability, b"A001 BAD\r\n"), None);
}

#[test]
fn silent_service_is_unknown() {
    assert_eq!(identify(&Vec::new()), Service::Unknown);
    assert_eq!(
        Fingerprint::advance(Probe::ImapCapability, b"nothing"),
        Fingerprint::Identified(Service::Unknown)
    );
}

#[test]
fn replay_gives_same_label() {
    let replies = session(&[b"hi", b"", b"", b"", b"E\x00", b"+PONG"]);
    let first = identify(&replies);
    let second = identify(&replies.clone());
    assert_eq!(first, Service::PostgreSql);
    assert_eq!(first, second);
}

#[test]
fn first_match_wins() {
    // A later probe's reply never overrides an earlier match.
    let label = identify(&session(&[b"", b"HTTP/1.1 200 OK\r\n", b"", b"mysql mysql"]));
    assert_eq!(label, Service::Http);
}

#[test]
fn probe_chain_order_and_limits() {
    let mut p = Probe::Banner;
    let mut order = vec![p];
    while let Some(q) = p.next() {
        order.push(q);
        p = q;
    }
    assert_eq!(order.len(), 10);
    assert_eq!(order[5], Probe::RedisPing);
    assert_eq!(Probe::Banner.read_limit(), 1024);
    assert_eq!(Probe::RedisPing.read_limit(), 64);
    assert_eq!(Probe::SmtpEhlo.read_limit(), 512);
    assert_eq!(Probe::MySqlHandshake.read_limit(), 256);
}

#[test]
fn probe_payloads() {
    assert!(Probe::Banner.payload().is_empty());
    assert_eq!(
        Probe::HttpGet.payload(),
        b"GET / HTTP/1.1\r\nHost: localhost\r\nConnection: close\r\n\r\n".to_vec()
    );
    assert_eq!(
        Probe::HttpOptions.payload(),
        b"OPTIONS / HTTP/1.1\r\nHost: localhost\r\nConnection: close\r\n\r\n".to_vec()
    );
    assert_eq!(Probe::MySqlHandshake.payload(), vec![0u8]);
    assert_eq!(
        Probe::PostgresStartup.payload(),
        vec![0x00, 0x00, 0x00, 0x08, 0x04, 0xd2, 0x16, 0x2f]
    );
    assert_eq!(Probe::RedisPing.payload(), b"*1\r\n$4\r\nPING\r\n".to_vec());
    let mongo = Probe::MongoIsMaster.payload();
    assert_eq!(mongo.len(), 58);
    assert_eq!(mongo[0], 0x3a);
    assert_eq!(&mongo[20..31], b"admin.$cmd\x00");
    assert_eq!(&mongo[44..52], b"ismaster");
    assert_eq!(Probe::SmtpEhlo.payload(), b"EHLO localhost\r\n".to_vec());
    assert_eq!(Probe::Pop3User.payload(), b"USER test\r\n".to_vec());
    assert_eq!(Probe::ImapCapability.payload(), b"A001 CAPABILITY\r\n".to_vec());
}

#[test]
fn service_names() {
    assert_eq!(Service::Ssh.name(), "SSH");
    assert_eq!(Service::HttpNginx.name(), "HTTP (Nginx)");
    assert_eq!(Service::HttpApache.name(), "HTTP (Apache)");
    assert_eq!(Service::HttpIis.name(), "HTTP (IIS)");
    assert_eq!(Service::PostgreSql.name(), "PostgreSQL");
    assert_eq!(Service::MongoDb.name(), "MongoDB");
    assert_eq!(Service::Unknown.name(), "Unknown");
}
