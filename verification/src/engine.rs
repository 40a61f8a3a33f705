//! The template engine and what the renderer loads into it.
//!
//! The engine is `handlebars`' registry. Nothing is proved of the engine
//! itself: this module states, for each call the renderer makes, what the
//! call does to the set of registered templates, and gives names to what
//! only the engine decides.

use vstd::prelude::*;
use vstd::utf8::{decode_utf8, valid_utf8};
use crate::config::HtmlConfig;
use crate::error::TemplateLoadError;
use crate::helpers::{RenderToc, next, previous};
use crate::json::JsonObject;
use crate::theme::Theme;

verus! {

/// `handlebars::Handlebars`: the engine. The verifier does not look inside;
/// what matters of its state is [`template_names`] and [`helper_names`].
#[verifier::external_type_specification]
#[verifier::external_body]
pub struct ExHandlebars<'reg>(handlebars::Handlebars<'reg>);

/// `handlebars::TemplateError`: why a text is no template.
#[verifier::external_type_specification]
#[verifier::external_body]
pub struct ExTemplateError(handlebars::TemplateError);

/// `handlebars::RenderError`: why a page was not rendered.
#[verifier::external_type_specification]
#[verifier::external_body]
pub struct ExRenderError(handlebars::RenderError);

/// `std::string::FromUtf8Error`: why bytes are no UTF-8 text.
#[verifier::external_type_specification]
#[verifier::external_body]
pub struct ExFromUtf8Error(std::string::FromUtf8Error);

/// The names under which the engine holds a template.
pub uninterp spec fn template_names(engine: handlebars::Handlebars<'static>) -> Set<Seq<char>>;

/// The names under which the engine holds a helper.
pub uninterp spec fn helper_names(engine: handlebars::Handlebars<'static>) -> Set<Seq<char>>;

/// Whether the engine takes `text` as the template `name`.
pub uninterp spec fn parses_as_template(name: Seq<char>, text: Seq<char>) -> bool;

/// Whether the engine takes `text` as the partial `name`.
pub uninterp spec fn parses_as_partial(name: Seq<char>, text: Seq<char>) -> bool;

/// `handlebars::Handlebars::new`: an engine that holds no template.
#[verifier::external_body]
pub(crate) fn new_engine() -> (engine: handlebars::Handlebars<'static>)
    ensures
        template_names(engine) == Set::<Seq<char>>::empty(),
{
    handlebars::Handlebars::new()
}

/// `handlebars::Handlebars::register_template_string`: succeeds exactly on
/// the texts that parse as a template, a matter of `name` and `text` alone.
/// On success the template is held under `name`; on failure the engine holds
/// what it held.
#[verifier::external_body]
pub(crate) fn register_template_string(
    engine: &mut handlebars::Handlebars<'static>,
    name: &str,
    text: String,
) -> (outcome: Result<(), handlebars::TemplateError>)
    ensures
        outcome is Ok <==> parses_as_template(name@, text@),
        template_names(*final(engine)) == if outcome is Ok {
            template_names(*old(engine)).insert(name@)
        } else {
            template_names(*old(engine))
        },
{
    engine.register_template_string(name, text)
}

/// `handlebars::Handlebars::register_partial`: succeeds exactly on the texts
/// that parse as a partial, a matter of `name` and `text` alone. On success
/// the partial is held under `name`, among the templates; on failure the
/// engine holds what it held.
#[verifier::external_body]
pub(crate) fn register_partial(
    engine: &mut handlebars::Handlebars<'static>,
    name: &str,
    text: String,
) -> (outcome: Result<(), handlebars::TemplateError>)
    ensures
        outcome is Ok <==> parses_as_partial(name@, text@),
        template_names(*final(engine)) == if outcome is Ok {
            template_names(*old(engine)).insert(name@)
        } else {
            template_names(*old(engine))
        },
{
    engine.register_partial(name, text)
}

/// `handlebars::Handlebars::register_helper`: the engine holds a helper
/// under `name` afterwards, in place of any it held under that name. Where a
/// template calls the helper, the engine hands `helper` the data that is
/// being rendered and writes the text it returns into the page, or fails
/// the render with the message it returns.
#[verifier::external_body]
pub(crate) fn register_helper<F>(engine: &mut handlebars::Handlebars<'static>, name: &str, helper: F)
    where F: Fn(&serde_json::Value) -> Result<String, String> + Send + Sync + 'static
    requires
        forall|data: &serde_json::Value| #[trigger] helper.requires((data,)),
    ensures
        helper_names(*final(engine)) == helper_names(*old(engine)).insert(name@),
        template_names(*final(engine)) == template_names(*old(engine)),
{
    let call = move |
        _: &handlebars::Helper,
        _: &handlebars::Handlebars,
        ctx: &handlebars::Context,
        _: &mut handlebars::RenderContext,
        out: &mut dyn handlebars::Output,
    | -> handlebars::HelperResult {
        let text = helper(ctx.data()).map_err(handlebars::RenderErrorReason::Other)?;
        Ok(out.write(&text)?)
    };
    engine.register_helper(name, Box::new(call));
}

/// `handlebars::Handlebars::render`: the page that the template `name` makes
/// of `data`, or the engine's error. An engine that holds no template under
/// `name` has none to render and answers with an error. Where it holds one,
/// which of the two it is, and what the page holds, is up to the templates
/// and helpers in the engine.
#[verifier::external_body]
pub(crate) fn render_template(
    engine: &handlebars::Handlebars<'static>,
    name: &str,
    data: &JsonObject,
) -> (outcome: Result<String, handlebars::RenderError>)
    ensures
        !template_names(*engine).contains(name@) ==> outcome is Err,
{
    engine.render(name, data)
}

/// `String::from_utf8`: the text that the bytes encode, where they are valid
/// UTF-8, and an error where they are not.
#[verifier::external_body]
pub(crate) fn text_from_utf8(bytes: Vec<u8>) -> (outcome: Result<
    String,
    std::string::FromUtf8Error,
>)
    ensures
        outcome is Ok <==> valid_utf8(bytes@),
        outcome matches Ok(text) ==> text@ == decode_utf8(bytes@),
{
    String::from_utf8(bytes)
}

/// Decodes the bytes of the template `name`.
fn decode_template(name: &str, bytes: &Vec<u8>) -> (outcome: Result<String, TemplateLoadError>)
    ensures
        match outcome {
            Ok(text) => valid_utf8(bytes@) && text@ == decode_utf8(bytes@),
            Err(TemplateLoadError::Encoding { template, .. }) => !valid_utf8(bytes@) && template@
                == name@,
            Err(TemplateLoadError::Syntax { .. }) => false,
        },
{
    let copy = bytes.clone();
    assert(copy@ =~= bytes@);
    match text_from_utf8(copy) {
        Ok(text) => Ok(text),
        Err(e) => Err(
            TemplateLoadError::Encoding {
                template: String::from_str(name),
                detail: e.to_string(),
            },
        ),
    }
}

/// What is wrong with a template.
pub enum TemplateFault {
    /// Its bytes are not UTF-8 text.
    Encoding,
    /// Its text does not parse.
    Syntax,
}

/// The template of a theme that fails to load, and why: the page template
/// "index" is looked at before the partial "header", and the encoding of
/// each before its syntax. `None` where both load.
pub open spec fn load_failure(index: Seq<u8>, header: Seq<u8>) -> Option<
    (Seq<char>, TemplateFault),
> {
    if !valid_utf8(index) {
        Some(("index"@, TemplateFault::Encoding))
    } else if !parses_as_template("index"@, decode_utf8(index)) {
        Some(("index"@, TemplateFault::Syntax))
    } else if !valid_utf8(header) {
        Some(("header"@, TemplateFault::Encoding))
    } else if !parses_as_partial("header"@, decode_utf8(header)) {
        Some(("header"@, TemplateFault::Syntax))
    } else {
        None
    }
}

/// The template that an error is about, and what is wrong with it.
pub open spec fn fault_of(error: TemplateLoadError) -> (Seq<char>, TemplateFault) {
    match error {
        TemplateLoadError::Encoding { template, .. } => (template@, TemplateFault::Encoding),
        TemplateLoadError::Syntax { template, .. } => (template@, TemplateFault::Syntax),
    }
}

/// Makes an engine that holds the theme's page template as "index", its
/// header partial as "header", and the helpers "toc", "previous" and "next".
/// The helper "toc" leaves section labels out where the configuration asks
/// for that at the time of this call.
///
/// Fails where a template is not UTF-8 text or does not parse, and says which
/// and why; no engine is returned then.
pub fn load_handlebars_engine(assets: &Theme, cfg: &HtmlConfig) -> (outcome: Result<
    handlebars::Handlebars<'static>,
    TemplateLoadError,
>)
    ensures
        match outcome {
            Ok(engine) => {
                &&& load_failure(assets.index@, assets.header@).is_none()
                &&& template_names(engine) == set!["index"@, "header"@]
                &&& helper_names(engine).contains("toc"@)
                &&& helper_names(engine).contains("previous"@)
                &&& helper_names(engine).contains("next"@)
            },
            Err(error) => load_failure(assets.index@, assets.header@) == Some(fault_of(error)),
        },
{
    let mut hbs = new_engine();

    let index = match decode_template("index", &assets.index) {
        Ok(text) => text,
        Err(e) => {
            return Err(e);
        },
    };
    match register_template_string(&mut hbs, "index", index) {
        Ok(_) => {},
        Err(e) => {
            return Err(
                TemplateLoadError::Syntax {
                    template: String::from_str("index"),
                    detail: e.to_string(),
                },
            );
        },
    }
    let header = match decode_template("header", &assets.header) {
        Ok(text) => text,
        Err(e) => {
            return Err(e);
        },
    };
    match register_partial(&mut hbs, "header", header) {
        Ok(_) => {},
        Err(e) => {
            return Err(
                TemplateLoadError::Syntax {
                    template: String::from_str("header"),
                    detail: e.to_string(),
                },
            );
        },
    }

    let toc = RenderToc { no_section_label: cfg.no_section_label };
    register_helper(
        &mut hbs,
        "toc",
        move |data: &serde_json::Value| -> (markup: Result<String, String>) { toc.render(data) },
    );
    register_helper(
        &mut hbs,
        "previous",
        |data: &serde_json::Value| -> (markup: Result<String, String>) { previous(data) },
    );
    register_helper(
        &mut hbs,
        "next",
        |data: &serde_json::Value| -> (markup: Result<String, String>) { next(data) },
    );
    assert(template_names(hbs) =~= set!["index"@, "header"@]);
    Ok(hbs)
}

} // verus!
