//! The data each HTML page is rendered from. Rendering itself happens
//! outside the library; these structs only carry the page's dynamic values.

use vstd::prelude::*;

verus! {

/// Data of the home page.
#[derive(Debug)]
pub struct IndexTemplate {
    pub daily_wisdom: String,
}

/// Data of the about page; it has none.
#[derive(Debug)]
pub struct AboutTemplate {}

/// Data of the daily-wisdom page.
#[derive(Debug)]
pub struct WisdomTemplate {
    pub daily_wisdom: String,
}

/// Data of the wisdom-field page; it has none.
#[derive(Debug)]
pub struct QuantumFieldTemplate {}

} // verus!
