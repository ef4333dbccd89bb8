//! Well-known directories and files of the system: configuration under
//! `/etc/digios`, data under `/var/lib/digios`.

use vstd::prelude::*;
use vstd::string::*;

verus! {

/// The configuration directory.
pub open spec fn spec_config_dir() -> Seq<char> {
    "/etc/digios"@
}

/// The data directory.
pub open spec fn spec_data_dir() -> Seq<char> {
    "/var/lib/digios"@
}

/// The directory that holds model files.
pub open spec fn spec_models_dir() -> Seq<char> {
    "/var/lib/digios/models"@
}

pub fn get_config_dir() -> (r: String)
    ensures
        r@ == spec_config_dir(),
{
    String::from_str("/etc/digios")
}

pub fn get_data_dir() -> (r: String)
    ensures
        r@ == spec_data_dir(),
{
    String::from_str("/var/lib/digios")
}

pub fn get_setup_complete_path() -> (r: String)
    ensures
        r@ == "/etc/digios/setup_complete"@,
{
    String::from_str("/etc/digios/setup_complete")
}

pub fn get_model_config_path() -> (r: String)
    ensures
        r@ == "/etc/digios/model.json"@,
{
    String::from_str("/etc/digios/model.json")
}

pub fn get_models_dir() -> (r: String)
    ensures
        r@ == spec_models_dir(),
{
    String::from_str("/var/lib/digios/models")
}

pub fn get_memory_dir() -> (r: String)
    ensures
        r@ == "/var/lib/digios/memory"@,
{
    String::from_str("/var/lib/digios/memory")
}

} // verus!
