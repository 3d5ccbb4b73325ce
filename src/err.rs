use vstd::prelude::*;
use crate::json::DecodeError;

verus! {

/// Everything that can go wrong in a lookup or in setup.
#[derive(PartialEq, Eq, Structural, Clone, Copy, Debug)]
pub enum Error {
    /// The file system refused a read or a write.
    Io,
    /// The transport failed (DNS, connect, TLS, timeout).
    Network,
    /// The service answered with a status outside 2xx.
    Status(u16),
    /// The reply does not match the schema of the lookup kind.
    Decode(DecodeError),
    /// The credential document could not be written.
    TomlSer,
    /// The secret prompt failed.
    Input,
    /// The home directory could not be determined.
    Path,
    /// No credential file exists yet.
    ConfigFileNotFound,
    /// The credential file exists but holds no string `key`.
    ConfigFile,
    /// The lookup kind is reserved and has no behaviour yet.
    NotImplemented,
}

/// The message shown to the user for an error.
pub open spec fn message_of(e: Error) -> Seq<char> {
    match e {
        Error::Io => "IO error"@,
        Error::Network => "Network error"@,
        Error::Status(_) => "The service refused the request"@,
        Error::Decode(_) => "Unexpected reply from the service"@,
        Error::TomlSer => "TOML Serialization error"@,
        Error::Input => "Input error"@,
        Error::Path => "Home directory not found"@,
        Error::ConfigFileNotFound => "API key not found.\nPlease run 'werd setup'"@,
        Error::ConfigFile => "Could not read API key from config.\nPlease run 'werd setup' again"@,
        Error::NotImplemented => "Command not implemented"@,
    }
}

impl Error {
    /// The message shown to the user; the two credential errors name the
    /// corrective action.
    pub fn message(&self) -> (r: &'static str)
        ensures
            r@ == message_of(*self),
    {
        match self {
            Error::Io => {
                proof {
                    reveal_strlit("IO error");
                }
                "IO error"
            },
            Error::Network => {
                proof {
                    reveal_strlit("Network error");
                }
                "Network error"
            },
            Error::Status(_) => {
                proof {
                    reveal_strlit("The service refused the request");
                }
                "The service refused the request"
            },
            Error::Decode(_) => {
                proof {
                    reveal_strlit("Unexpected reply from the service");
                }
                "Unexpected reply from the service"
            },
            Error::TomlSer => {
                proof {
                    reveal_strlit("TOML Serialization error");
                }
                "TOML Serialization error"
            },
            Error::Input => {
                proof {
                    reveal_strlit("Input error");
                }
                "Input error"
            },
            Error::Path => {
                proof {
                    reveal_strlit("Home directory not found");
                }
                "Home directory not found"
            },
            Error::ConfigFileNotFound => {
                proof {
                    reveal_strlit("API key not found.\nPlease run 'werd setup'");
                }
                "API key not found.\nPlease run 'werd setup'"
            },
            Error::ConfigFile => {
                proof {
                    reveal_strlit("Could not read API key from config.\nPlease run 'werd setup' again");
                }
                "Could not read API key from config.\nPlease run 'werd setup' again"
            },
            Error::NotImplemented => {
                proof {
                    reveal_strlit("Command not implemented");
                }
                "Command not implemented"
            },
        }
    }
}

} // verus!
