//! The static resources the index page pulls in.

use vstd::prelude::*;

verus! {

/// A script the index page loads, by URL.
#[derive(Debug, Clone)]
pub struct Script {
    pub url: String,
}

/// A stylesheet the index page loads, by URL.
#[derive(Debug, Clone)]
pub struct Style {
    pub url: String,
}

/// The scripts every index page loads: the plotting runtime and the
/// application bundle, in that order.
pub fn default_scripts() -> (r: Vec<Script>)
    ensures
        r@.len() == 2,
        r@[0].url@ == "https://cdn.plot.ly/plotly-1.38.1.min.js"@,
        r@[1].url@ == "app_bundle/bundle.js"@,
{
    let mut scripts: Vec<Script> = Vec::new();
    scripts.push(Script { url: "https://cdn.plot.ly/plotly-1.38.1.min.js".to_owned() });
    scripts.push(Script { url: "app_bundle/bundle.js".to_owned() });
    scripts
}

/// The stylesheets every index page loads: none, the bundle styles itself.
pub fn default_styles() -> (r: Vec<Style>)
    ensures
        r@.len() == 0,
{
    Vec::new()
}

} // verus!
