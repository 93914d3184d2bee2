use vstd::prelude::*;
use crate::decimal::{all_digits, decimal, digits_value, lemma_decimal_reads_back, push_decimal};

verus! {

/// The whole configuration file: the server section and the database section.
pub struct AppConfig {
    pub server: Server,
    pub database: Database,
}

/// Where the server listens and the secret that signs its tokens.
pub struct Server {
    pub address: String,
    pub port: u16,
    pub jwt_secret: String,
}

/// Which database driver to use and where the database is.
pub struct Database {
    pub db_driver: String,
    pub url: String,
}

/// The state of the environment variable that may name the configuration file.
pub enum ConfigPathVar {
    /// The variable is not set.
    Unset,
    /// The variable is set, but its value is not valid Unicode.
    NotUnicode,
    /// The variable is set to this text.
    Text(String),
}

/// The file read when the environment names none.
pub open spec fn default_config_path() -> Seq<char> {
    "Config.toml"@
}

/// The configuration file chosen for a given state of the environment variable.
pub open spec fn chosen_config_path(var: ConfigPathVar) -> Seq<char> {
    match var {
        ConfigPathVar::Unset => default_config_path(),
        ConfigPathVar::NotUnicode => Seq::empty(),
        ConfigPathVar::Text(s) => s@,
    }
}

/// The text that the server binds to: the address, a colon, and the port in decimal.
pub open spec fn listen_address_text(address: Seq<char>, port: u16) -> Seq<char> {
    address + seq![':'] + decimal(port as nat)
}

impl AppConfig {
    /// Picks the configuration file: the value of the environment variable
    /// when it is set (an empty path when that value is not Unicode), else
    /// `Config.toml`.
    pub fn config_path(var: ConfigPathVar) -> (path: String)
        ensures
            path@ == chosen_config_path(var),
            var is Unset ==> path@ == "Config.toml"@,
            var is NotUnicode ==> path@.len() == 0,
            var matches ConfigPathVar::Text(s) ==> path@ == s@,
    {
        match var {
            ConfigPathVar::Unset => {
                proof {
                    reveal_strlit("Config.toml");
                }
                String::from_str("Config.toml")
            },
            ConfigPathVar::NotUnicode => String::new(),
            ConfigPathVar::Text(s) => s,
        }
    }
}

impl Server {
    /// The socket address text the server binds to, `address:port`.
    pub fn listen_address(&self) -> (text: String)
        ensures
            text@ == listen_address_text(self.address@, self.port),
    {
        let mut text = self.address.clone();
        proof {
            reveal_strlit(":");
        }
        text.append(":");
        push_decimal(&mut text, self.port as u64);
        text
    }
}

/// The configuration file is the variable's text, exactly as set, whatever
/// that text is; only an unset variable falls back to `Config.toml`, and a
/// value that is not Unicode gives the empty path.
pub proof fn law_config_path_follows_the_variable(s: String)
    ensures
        chosen_config_path(ConfigPathVar::Text(s)) == s@,
        chosen_config_path(ConfigPathVar::Unset) == "Config.toml"@,
        chosen_config_path(ConfigPathVar::NotUnicode).len() == 0,
{
}

/// The port can be read back from the listening address: after the
/// configured address and the colon stands nothing but decimal digits, and
/// they read as the configured port.
pub proof fn law_listen_address_port_reads_back(address: Seq<char>, port: u16)
    ensures
        listen_address_text(address, port).subrange(0, address.len() as int) == address,
        listen_address_text(address, port)[address.len() as int] == ':',
        all_digits(listen_address_text(address, port).skip(address.len() + 1int)),
        digits_value(listen_address_text(address, port).skip(address.len() + 1int)) == port as int,
{
    let text = listen_address_text(address, port);
    assert(text.skip(address.len() + 1int) =~= decimal(port as nat));
    assert(text.subrange(0, address.len() as int) =~= address);
    lemma_decimal_reads_back(port as nat);
}

} // verus!
