use vstd::prelude::*;

verus! {

use std::collections::HashMap;

/// Where icons are searched, and the aliases one icon may go by.
#[derive(Debug, Clone, Default)]
pub struct IconConfig {
    pub paths: Vec<String>,
    pub alias: HashMap<String, Vec<String>>,
}

/// The bar's own configuration file.
#[derive(Debug, Clone, Default)]
pub struct Config {
    pub icon_path: String,
}

/// The configuration after the icon file it points at has been read too.
#[derive(Debug, Clone)]
pub struct ParsedConfig {
    pub config: Config,
    pub icon: IconConfig,
}

} // verus!
