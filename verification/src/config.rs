use vstd::prelude::*;

verus! {

/// Immutable service configuration, built once at startup and handed by
/// reference to the components that need it.
#[allow(non_snake_case)]
pub struct Config {
    pub WEB_FOLDER: String,
    pub DB_URL: String,
}

/// Builds the configuration value from the two settings the service reads at
/// startup.
pub fn config(web_folder: String, db_url: String) -> (c: Config)
    ensures
        c.WEB_FOLDER@ == web_folder@,
        c.DB_URL@ == db_url@,
{
    Config { WEB_FOLDER: web_folder, DB_URL: db_url }
}

} // verus!
