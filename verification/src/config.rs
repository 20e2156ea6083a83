use vstd::prelude::*;

verus! {

/// A navigation entry of the site's table of contents.
#[derive(Debug)]
pub struct NavItems {
    pub title: String,
    pub url: String,
    pub path: Option<String>,
    pub children: Vec<NavItems>,
}

/// The site configuration the store consumes.  Loading it from its file is
/// a plain schema deserialization done by the surrounding program; the store
/// only reads the resulting value, most importantly the extension used to
/// translate document identifiers to storage paths.
#[derive(Debug)]
pub struct Config {
    pub site_name: String,
    pub site_url: String,
    pub description: String,
    pub toc: Vec<NavItems>,
    pub resolve_extension: String,
}

} // verus!
