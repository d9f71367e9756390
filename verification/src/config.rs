//! Application configuration as plain values.
//!
//! Reading the environment is the driver's business; the rules — which
//! values are required, which default, and which model a model identifier
//! selects — live here.

use vstd::prelude::*;

verus! {

/// The application's configuration: the API key, the model identifier, and
/// the working directory of the subprocess tool server.
pub struct AppConfig {
    pub deepseek_api_key: String,
    pub model: String,
    pub iplocate_dir: String,
}

/// Which chat model a model identifier selects.
#[derive(Clone, Copy, PartialEq, Eq, Structural, Debug)]
pub enum ModelKind {
    Chat,
    Reasoner,
}

/// The model kind an identifier selects: the reasoner by its exact name,
/// the chat model for every other identifier.
pub open spec fn spec_model_kind(model: Seq<char>) -> ModelKind {
    if model == "deepseek-reasoner"@ {
        ModelKind::Reasoner
    } else {
        ModelKind::Chat
    }
}

/// The model kind an identifier selects.
pub fn model_kind_of(model: &str) -> (r: ModelKind)
    ensures
        r == spec_model_kind(model@),
{
    let m = String::from_str(model);
    let reasoner = String::from_str("deepseek-reasoner");
    if m == reasoner {
        ModelKind::Reasoner
    } else {
        ModelKind::Chat
    }
}

impl AppConfig {
    /// Builds the configuration from the values the driver read from the
    /// environment: the API key is required; a missing model identifier
    /// defaults to `deepseek-chat`, a missing tool-server directory to
    /// `./mcp-server-iplocate`.
    pub fn from_values(
        api_key: Option<String>,
        model: Option<String>,
        iplocate_dir: Option<String>,
    ) -> (r: Option<AppConfig>)
        ensures
            r is Some <==> api_key is Some,
            r matches Some(c) ==> {
                &&& api_key matches Some(k) && c.deepseek_api_key@ == k@
                &&& c.model@ == (match model {
                    Some(m) => m@,
                    None => "deepseek-chat"@,
                })
                &&& c.iplocate_dir@ == (match iplocate_dir {
                    Some(d) => d@,
                    None => "./mcp-server-iplocate"@,
                })
            },
    {
        match api_key {
            None => None,
            Some(key) => Some(
                AppConfig {
                    deepseek_api_key: key,
                    model: match model {
                        Some(m) => m,
                        None => String::from_str("deepseek-chat"),
                    },
                    iplocate_dir: match iplocate_dir {
                        Some(d) => d,
                        None => String::from_str("./mcp-server-iplocate"),
                    },
                },
            ),
        }
    }

    /// The model kind this configuration selects.
    pub fn model_kind(&self) -> (r: ModelKind)
        ensures
            r == spec_model_kind(self.model@),
    {
        model_kind_of(self.model.as_str())
    }
}

} // verus!
