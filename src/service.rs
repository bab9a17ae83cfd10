use vstd::prelude::*;

verus! {

/// The application protocols that the fingerprinter can recognise.
#[derive(Clone, Copy, Debug, PartialEq, Eq, Structural)]
pub enum Service {
    Ssh,
    Ftp,
    Smtp,
    Imap,
    Pop3,
    Telnet,
    Http,
    HttpNginx,
    HttpApache,
    HttpIis,
    HttpCaddy,
    MySql,
    PostgreSql,
    Redis,
    MongoDb,
    Unknown,
}

impl Service {
    /// The label under which the service is reported.
    pub open spec fn spec_name(self) -> Seq<char> {
        match self {
            Service::Ssh => "SSH"@,
            Service::Ftp => "FTP"@,
            Service::Smtp => "SMTP"@,
            Service::Imap => "IMAP"@,
            Service::Pop3 => "POP3"@,
            Service::Telnet => "Telnet"@,
            Service::Http => "HTTP"@,
            Service::HttpNginx => "HTTP (Nginx)"@,
            Service::HttpApache => "HTTP (Apache)"@,
            Service::HttpIis => "HTTP (IIS)"@,
            Service::HttpCaddy => "HTTP (Caddy)"@,
            Service::MySql => "MySQL"@,
            Service::PostgreSql => "PostgreSQL"@,
            Service::Redis => "Redis"@,
            Service::MongoDb => "MongoDB"@,
            Service::Unknown => "Unknown"@,
        }
    }

    pub fn name(&self) -> (r: String)
        ensures
            r@ == self.spec_name(),
    {
        let s = match self {
            Service::Ssh => "SSH",
            Service::Ftp => "FTP",
            Service::Smtp => "SMTP",
            Service::Imap => "IMAP",
            Service::Pop3 => "POP3",
            Service::Telnet => "Telnet",
            Service::Http => "HTTP",
            Service::HttpNginx => "HTTP (Nginx)",
            Service::HttpApache => "HTTP (Apache)",
            Service::HttpIis => "HTTP (IIS)",
            Service::HttpCaddy => "HTTP (Caddy)",
            Service::MySql => "MySQL",
            Service::PostgreSql => "PostgreSQL",
            Service::Redis => "Redis",
            Service::MongoDb => "MongoDB",
            Service::Unknown => "Unknown",
        };
        s.to_owned()
    }
}

} // verus!
