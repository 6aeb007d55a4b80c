//! The body transform: the fixed set of minifier switches and the call into
//! `minify-html`, made only on a document the minifier is known to come back
//! from.

use crate::guard::{doubt, examine, Doubt};
use vstd::prelude::*;

verus! {

/// The switches handed to the minifier. Every switch of the minifier that is
/// not listed here stays off.
#[derive(Clone, Copy, Debug, PartialEq, Eq, Structural)]
pub struct MinifyConfig {
    /// Drop the space between two attributes where a browser still parses them.
    pub allow_removing_spaces_between_attributes: bool,
    /// Minify the CSS of `<style>` elements and `style` attributes.
    pub minify_css: bool,
    /// Minify the JavaScript of `<script>` elements.
    pub minify_js: bool,
    /// Drop `<!...>` declarations.
    pub remove_bangs: bool,
    /// Drop `<?...?>` processing instructions.
    pub remove_processing_instructions: bool,
    /// Keep comments in the output.
    pub keep_comments: bool,
}

impl MinifyConfig {
    /// The configuration every response is minified with.
    pub open spec fn preset() -> MinifyConfig {
        MinifyConfig {
            allow_removing_spaces_between_attributes: true,
            minify_css: true,
            minify_js: true,
            remove_bangs: true,
            remove_processing_instructions: true,
            keep_comments: false,
        }
    }

    /// Builds the configuration every response is minified with: comments,
    /// `<!...>` declarations and processing instructions go, embedded CSS and
    /// JavaScript are minified, and spaces between attributes may go.
    pub fn fixed() -> (cfg: MinifyConfig)
        ensures
            cfg == MinifyConfig::preset(),
    {
        MinifyConfig {
            allow_removing_spaces_between_attributes: true,
            minify_css: true,
            minify_js: true,
            remove_bangs: true,
            remove_processing_instructions: true,
            keep_comments: false,
        }
    }
}

/// What `minify_html::minify` returns for the document `src` under the
/// switches `cfg`.
pub uninterp spec fn minified(src: Seq<u8>, cfg: MinifyConfig) -> Seq<u8>;

/// Calls `minify_html::minify` with a `minify_html::Cfg` that has the six
/// switches of `cfg` and every other switch off.
///
/// Trusted, not proved:
/// - on a document without a `doubt`, the call returns. What was read for
///   this, in minify-html 0.18.1:
///   - the parser and the writer nest once for an element (`parse_element`
///     and `parse_content`, `minify_element` and `minify_content`), and an
///     element begins at a `<` with a name character behind it, of which
///     the document holds at most `MAX_ELEMENTS`;
///   - the parser asserts that the end tag of a `script`, `style`,
///     `textarea` or `title` element bears the element's name
///     (`parse_element`), and finds that tag by its first letters alone; no
///     such tag runs on into a longer name;
///   - the two places that panic on text that is not UTF-8 (`minify_css`,
///     and `minify_attr` for a `style` attribute) and the calls into the CSS
///     minifier stand behind the CSS switch and need a `style` element or
///     attribute; the call into the JavaScript minifier (`minify_js`) stands
///     behind the JavaScript switch and needs a `script` element. With the
///     switch on, the document holds no such name, so none of them is
///     reached, and nothing is assumed of the CSS and JavaScript minifiers;
/// - the result depends on the document and the switches alone. The minifier
///   sorts the attributes of each element (`minify_element`), so the order of
///   its hash maps does not show in the output;
/// - an empty document comes back empty: nothing is parsed, so nothing is
///   written.
#[verifier::external_body]
fn run_minifier(src: &[u8], cfg: &MinifyConfig) -> (out: Vec<u8>)
    requires
        doubt(src@, *cfg) is None,
    ensures
        out@ == minified(src@, *cfg),
        src@.len() == 0 ==> out@.len() == 0,
{
    let mut switches = minify_html::Cfg::new();
    switches.allow_removing_spaces_between_attributes = cfg.allow_removing_spaces_between_attributes;
    switches.minify_css = cfg.minify_css;
    switches.minify_js = cfg.minify_js;
    switches.remove_bangs = cfg.remove_bangs;
    switches.remove_processing_instructions = cfg.remove_processing_instructions;
    switches.keep_comments = cfg.keep_comments;
    minify_html::minify(src, &switches)
}

/// Minifies the HTML document `src`, unless there is a doubt whether the
/// minifier comes back from it; the call is then not made and the doubt is
/// handed back.
pub fn minify(src: &[u8], cfg: &MinifyConfig) -> (out: Result<Vec<u8>, Doubt>)
    ensures
        match doubt(src@, *cfg) {
            Some(why) => out == Err::<Vec<u8>, Doubt>(why),
            None => out matches Ok(bytes) && bytes@ == minified(src@, *cfg) && (src@.len() == 0
                ==> bytes@.len() == 0),
        },
{
    match examine(src, cfg) {
        Some(why) => Err(why),
        None => Ok(run_minifier(src, cfg)),
    }
}

} // verus!
