//! The configuration-path scheme: where the stores and the generated widget
//! documents live.
//!
//! Everything sits under a `dashlayer` directory inside the platform's
//! per-user configuration directory: the record files directly in it, cached
//! assets under `cache`, and one generated HTML document per widget under
//! `widgets`, named by widget id. Paths are built with `/` separators.
use vstd::prelude::*;

verus! {

/// The application's configuration directory under `base`.
pub open spec fn config_dir_of(base: Seq<char>) -> Seq<char> {
    base + "/"@ + "dashlayer"@
}

/// The cache directory under the configuration directory built on `base`.
pub open spec fn cache_dir_of(base: Seq<char>) -> Seq<char> {
    config_dir_of(base) + "/"@ + "cache"@
}

/// The generated document for widget `id` under the configuration directory
/// `config`: `config/widgets/<id>.html`.
pub open spec fn widget_file_of(config: Seq<char>, id: Seq<char>) -> Seq<char> {
    config + "/"@ + "widgets"@ + "/"@ + id + ".html"@
}

/// A record file such as `widgets.json` under the configuration directory.
pub open spec fn store_file_of(config: Seq<char>, name: Seq<char>) -> Seq<char> {
    config + "/"@ + name
}

/// The error reported when the platform defines no configuration directory.
pub open spec fn missing_config_dir_msg() -> Seq<char> {
    "Failed to get configuration directory"@
}

/// Relies on dirs::config_dir: the platform's per-user configuration
/// directory, or `None` where the platform defines none. The result depends
/// on the environment, so nothing is assumed of it.
#[verifier::external_body]
fn config_base_dir() -> (r: Option<String>) {
    dirs::config_dir().map(|dir| dir.to_string_lossy().into_owned())
}

/// The application's configuration directory under `base`.
pub fn config_dir_path(base: &str) -> (r: String)
    ensures
        r@ == config_dir_of(base@),
{
    let mut s = String::new();
    s.append(base);
    s.append("/");
    s.append("dashlayer");
    s
}

/// Asks the platform for the configuration directory and places the
/// application's own directory under it; the typed error when the platform
/// defines none.
pub fn get_config_dir() -> (r: Result<String, String>)
    ensures
        r matches Ok(p) ==> exists|base: Seq<char>| p@ == config_dir_of(base),
        r matches Err(m) ==> m@ == missing_config_dir_msg(),
{
    match config_base_dir() {
        Some(base) => {
            let p = config_dir_path(base.as_str());
            proof {
                assert(p@ == config_dir_of(base@));
            }
            Ok(p)
        },
        None => Err(String::from_str("Failed to get configuration directory")),
    }
}

/// The cache directory: `cache` under the configuration directory.
pub fn get_cache_dir() -> (r: Result<String, String>)
    ensures
        r matches Ok(p) ==> exists|base: Seq<char>| p@ == cache_dir_of(base),
        r matches Err(m) ==> m@ == missing_config_dir_msg(),
{
    match get_config_dir() {
        Ok(config) => {
            let ghost base = choose|base: Seq<char>| config@ == config_dir_of(base);
            let mut s = config;
            s.append("/");
            s.append("cache");
            proof {
                assert(s@ == cache_dir_of(base));
            }
            Ok(s)
        },
        Err(e) => Err(e),
    }
}

/// The path of widget `id`'s generated document under `config_dir`.
pub fn widget_file_path(config_dir: &str, id: &str) -> (r: String)
    ensures
        r@ == widget_file_of(config_dir@, id@),
{
    let mut s = String::new();
    s.append(config_dir);
    s.append("/");
    s.append("widgets");
    s.append("/");
    s.append(id);
    s.append(".html");
    s
}

/// The path of the record file `name` under `config_dir`.
pub fn store_file_path(config_dir: &str, name: &str) -> (r: String)
    ensures
        r@ == store_file_of(config_dir@, name@),
{
    let mut s = String::new();
    s.append(config_dir);
    s.append("/");
    s.append(name);
    s
}

} // verus!
