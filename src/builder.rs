use vstd::prelude::*;
use vstd::string::*;

verus! {

/// The timeout, in seconds, that a built configuration gets when none was set.
pub const DEFAULT_CONNECTION_TIMEOUT: u64 = 30;

/// A complete database connection configuration.
#[derive(Debug, Clone)]
pub struct DatabaseConfig {
    pub host: String,
    pub port: u16,
    pub username: String,
    pub password: String,
    pub ssl: bool,
    pub connection_timeout: u64,
}

/// Collects the settings of a [`DatabaseConfig`] one call at a time.
pub struct DatabaseConfigBuilder {
    host: Option<String>,
    port: Option<u16>,
    username: Option<String>,
    password: Option<String>,
    ssl: bool,
    connection_timeout: Option<u64>,
}

/// The text a string option holds, if any.
pub open spec fn text_of(o: Option<String>) -> Option<Seq<char>> {
    match o {
        Some(s) => Some(s@),
        None => None,
    }
}

impl DatabaseConfigBuilder {
    pub closed spec fn host_set(&self) -> Option<Seq<char>> {
        text_of(self.host)
    }

    pub closed spec fn port_set(&self) -> Option<u16> {
        self.port
    }

    pub closed spec fn username_set(&self) -> Option<Seq<char>> {
        text_of(self.username)
    }

    pub closed spec fn password_set(&self) -> Option<Seq<char>> {
        text_of(self.password)
    }

    pub closed spec fn ssl_set(&self) -> bool {
        self.ssl
    }

    pub closed spec fn timeout_set(&self) -> Option<u64> {
        self.connection_timeout
    }

    /// Whether `other` holds the same settings as `self` but for those the
    /// predicate names: a helper for the setters' contracts.
    pub open spec fn same_except(
        &self,
        other: &Self,
        host: bool,
        port: bool,
        username: bool,
        password: bool,
        ssl: bool,
        timeout: bool,
    ) -> bool {
        &&& (host || other.host_set() == self.host_set())
        &&& (port || other.port_set() == self.port_set())
        &&& (username || other.username_set() == self.username_set())
        &&& (password || other.password_set() == self.password_set())
        &&& (ssl || other.ssl_set() == self.ssl_set())
        &&& (timeout || other.timeout_set() == self.timeout_set())
    }

    /// A builder with nothing set and SSL off.
    pub fn new() -> (r: Self)
        ensures
            r.host_set() is None,
            r.port_set() is None,
            r.username_set() is None,
            r.password_set() is None,
            !r.ssl_set(),
            r.timeout_set() is None,
    {
        DatabaseConfigBuilder {
            host: None,
            port: None,
            username: None,
            password: None,
            ssl: false,
            connection_timeout: None,
        }
    }

    pub fn host(self, host: &str) -> (r: Self)
        ensures
            r.host_set() == Some(host@),
            self.same_except(&r, true, false, false, false, false, false),
    {
        let mut b = self;
        b.host = Some(String::from_str(host));
        b
    }

    pub fn port(self, port: u16) -> (r: Self)
        ensures
            r.port_set() == Some(port),
            self.same_except(&r, false, true, false, false, false, false),
    {
        let mut b = self;
        b.port = Some(port);
        b
    }

    pub fn username(self, username: &str) -> (r: Self)
        ensures
            r.username_set() == Some(username@),
            self.same_except(&r, false, false, true, false, false, false),
    {
        let mut b = self;
        b.username = Some(String::from_str(username));
        b
    }

    pub fn password(self, password: &str) -> (r: Self)
        ensures
            r.password_set() == Some(password@),
            self.same_except(&r, false, false, false, true, false, false),
    {
        let mut b = self;
        b.password = Some(String::from_str(password));
        b
    }

    pub fn ssl(self, ssl: bool) -> (r: Self)
        ensures
            r.ssl_set() == ssl,
            self.same_except(&r, false, false, false, false, true, false),
    {
        let mut b = self;
        b.ssl = ssl;
        b
    }

    pub fn connection_timeout(self, timeout: u64) -> (r: Self)
        ensures
            r.timeout_set() == Some(timeout),
            self.same_except(&r, false, false, false, false, false, true),
    {
        let mut b = self;
        b.connection_timeout = Some(timeout);
        b
    }

    /// The configuration, once host, port, username and password are all set.
    /// The first of those four that is missing, in that order, is reported.
    pub fn build(self) -> (r: Result<DatabaseConfig, String>)
        ensures
            self.host_set() is None ==> r is Err && r->Err_0@ == "Host is required"@,
            self.host_set() is Some && self.port_set() is None ==> r is Err && r->Err_0@
                == "Port is required"@,
            self.host_set() is Some && self.port_set() is Some && self.username_set() is None
                ==> r is Err && r->Err_0@ == "Username is required"@,
            self.host_set() is Some && self.port_set() is Some && self.username_set() is Some
                && self.password_set() is None ==> r is Err && r->Err_0@
                == "Password is required"@,
            self.host_set() is Some && self.port_set() is Some && self.username_set() is Some
                && self.password_set() is Some <==> r is Ok,
            r is Ok ==> {
                let c = r->Ok_0;
                &&& Some(c.host@) == self.host_set()
                &&& Some(c.port) == self.port_set()
                &&& Some(c.username@) == self.username_set()
                &&& Some(c.password@) == self.password_set()
                &&& c.ssl == self.ssl_set()
                &&& c.connection_timeout == match self.timeout_set() {
                    Some(t) => t,
                    None => DEFAULT_CONNECTION_TIMEOUT,
                }
            },
    {
        let host = match self.host {
            Some(h) => h,
            None => return Err(String::from_str("Host is required")),
        };
        let port = match self.port {
            Some(p) => p,
            None => return Err(String::from_str("Port is required")),
        };
        let username = match self.username {
            Some(u) => u,
            None => return Err(String::from_str("Username is required")),
        };
        let password = match self.password {
            Some(p) => p,
            None => return Err(String::from_str("Password is required")),
        };
        let connection_timeout = match self.connection_timeout {
            Some(t) => t,
            None => DEFAULT_CONNECTION_TIMEOUT,
        };
        Ok(DatabaseConfig { host, port, username, password, ssl: self.ssl, connection_timeout })
    }
}

} // verus!
