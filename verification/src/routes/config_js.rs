use vstd::prelude::*;
use crate::errors::{json_quote, json_string_literal};
use crate::text::{trim, trimmed};

verus! {

/// Settings the browser UI reads at startup.
#[derive(Debug, Clone)]
pub struct PublicConfig {
    pub google_client_id: Option<String>,
}

impl Default for PublicConfig {
    fn default() -> (r: Self)
        ensures
            r.google_client_id is None,
    {
        PublicConfig { google_client_id: None }
    }
}

/// The Google client id the UI gets: the configured one trimmed, or empty
/// when none (or only whitespace) is configured.
pub open spec fn public_google_client_id(cfg: PublicConfig) -> Seq<char> {
    match cfg.google_client_id {
        Some(id) => trim(id@),
        None => Seq::<char>::empty(),
    }
}

/// The script served as `/config.js`.
pub open spec fn config_script(cfg: PublicConfig) -> Seq<char> {
    "window.__APP_CONFIG = "@ + "{\"googleClientId\":"@ + json_quote(public_google_client_id(cfg))
        + "}"@ + ";\n"@
}

/// The body of `/config.js`: assigns the public settings to
/// `window.__APP_CONFIG`. The id is written as a JSON string literal, so no
/// value can break out of it.
pub fn config_js_body(cfg: &PublicConfig) -> (r: String)
    ensures
        r@ == config_script(*cfg),
{
    let google = match &cfg.google_client_id {
        Some(id) => trimmed(id.as_str()),
        None => String::new(),
    };
    let mut body = String::from_str("window.__APP_CONFIG = ");
    body.append("{\"googleClientId\":");
    let quoted = json_string_literal(google.as_str());
    body.append(quoted.as_str());
    body.append("}");
    body.append(";\n");
    body
}

} // verus!
