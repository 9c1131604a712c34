//! AI Logo Studio commands: logo variant generation and export.

use vstd::prelude::*;
use crate::clock::{new_id, start_timer, elapsed_millis, uuid_v4_text};
use crate::text::{lowercase_of, to_lowercase, str_eq};

verus! {

/// What a logo should look like.
#[derive(Debug, Clone)]
pub struct LogoPrompt {
    pub brand_name: String,
    pub style: String,
    pub colour_palette: Vec<String>,
    pub aspect_ratio: String,
    pub negative_prompt: Option<String>,
    pub seed: Option<u64>,
}

/// One generated logo.
#[derive(Debug, Clone)]
pub struct LogoVariant {
    pub variant_id: String,
    pub base64_png: String,
    pub width: u32,
    pub height: u32,
    pub seed: u64,
}

/// The variants generated for one prompt.
#[derive(Debug, Clone)]
pub struct LogoGenerationResult {
    pub request_id: String,
    pub variants: Vec<LogoVariant>,
    pub duration_ms: u64,
    pub model_used: String,
}

/// The seed of the first variant.
pub open spec fn base_seed(prompt: LogoPrompt) -> u64 {
    match prompt.seed {
        Some(s) => s,
        None => 0,
    }
}

/// Variant `i` of a prompt: a fresh 36-character id, no image yet,
/// 512 by 512, and the base seed plus `i`.
pub open spec fn is_variant(v: LogoVariant, prompt: LogoPrompt, i: int) -> bool {
    &&& uuid_v4_text(v.variant_id@)
    &&& v.base64_png@.len() == 0
    &&& v.width == 512
    &&& v.height == 512
    &&& v.seed == base_seed(prompt) + i
}

/// Generates `variant_count` logo variants for a prompt; a prompt without a
/// brand name, or a count outside 1..=8, is refused.
pub fn logo_generate(prompt: &LogoPrompt, variant_count: u8) -> (r: Result<LogoGenerationResult, String>)
    requires
        prompt.brand_name@.len() > 0 && 1 <= variant_count <= 8
            ==> base_seed(*prompt) + variant_count - 1 <= u64::MAX,
    ensures
        prompt.brand_name@.len() == 0 ==> (r matches Err(e) && e@ == "Brand name cannot be empty"@),
        prompt.brand_name@.len() > 0 && (variant_count == 0 || variant_count > 8)
            ==> (r matches Err(e) && e@ == "Variant count must be between 1 and 8"@),
        prompt.brand_name@.len() > 0 && 1 <= variant_count <= 8 ==> (r matches Ok(g) && {
            &&& uuid_v4_text(g.request_id@)
            &&& g.variants@.len() == variant_count
            &&& forall|i: int| 0 <= i < variant_count ==> is_variant(#[trigger] g.variants@[i], *prompt, i)
            &&& g.model_used@ == "stable-diffusion-xl"@
        }),
{
    if prompt.brand_name.as_str().is_empty() {
        return Err(String::from_str("Brand name cannot be empty"));
    }
    if variant_count == 0 || variant_count > 8 {
        return Err(String::from_str("Variant count must be between 1 and 8"));
    }
    let start = start_timer();
    let base: u64 = match prompt.seed {
        Some(s) => s,
        None => 0,
    };
    let mut variants: Vec<LogoVariant> = Vec::new();
    let mut i: u8 = 0;
    while i < variant_count
        invariant
            1 <= variant_count <= 8,
            base == base_seed(*prompt),
            base + variant_count - 1 <= u64::MAX,
            i <= variant_count,
            variants@.len() == i,
            forall|k: int| 0 <= k < i ==> is_variant(#[trigger] variants@[k], *prompt, k),
        decreases variant_count - i,
    {
        variants.push(LogoVariant {
            variant_id: new_id(),
            base64_png: String::new(),
            width: 512,
            height: 512,
            seed: base + i as u64,
        });
        i = i + 1;
    }
    let request_id = new_id();
    Ok(LogoGenerationResult {
        request_id,
        variants,
        duration_ms: elapsed_millis(&start),
        model_used: String::from_str("stable-diffusion-xl"),
    })
}

/// The export formats, lower case.
pub open spec fn export_formats() -> Seq<Seq<char>> {
    seq!["png"@, "svg"@, "ico"@, "webp"@]
}

/// Whether a lower-case format name is one logos export to.
pub fn export_format_supported(lower: &str) -> (r: bool)
    ensures
        r == export_formats().contains(lower@),
{
    let r = str_eq(lower, "png") || str_eq(lower, "svg") || str_eq(lower, "ico") || str_eq(lower, "webp");
    proof {
        if export_formats().contains(lower@) {
            let k = choose|k: int| 0 <= k < 4 && export_formats()[k] == lower@;
            assert(export_formats()[k] == lower@);
        }
        if r {
            if lower@ == "png"@ { assert(export_formats()[0] == lower@); }
            if lower@ == "svg"@ { assert(export_formats()[1] == lower@); }
            if lower@ == "ico"@ { assert(export_formats()[2] == lower@); }
            if lower@ == "webp"@ { assert(export_formats()[3] == lower@); }
        }
    }
    r
}

/// The answer to an unsupported export format.
pub open spec fn unsupported_format_message(format: Seq<char>) -> Seq<char> {
    "Unsupported format '"@ + format + "'. Supported: [\"png\", \"svg\", \"ico\", \"webp\"]"@
}

/// Exports a logo variant to `output_path`, answering with that path. An
/// empty variant id or output path is refused, and so is a format that,
/// read case-insensitively, is not png, svg, ico or webp.
pub fn logo_export(variant_id: String, output_path: String, format: String) -> (r: Result<String, String>)
    ensures
        variant_id@.len() == 0 ==> (r matches Err(e) && e@ == "Variant ID cannot be empty"@),
        variant_id@.len() > 0 && output_path@.len() == 0 ==> (r matches Err(e) && e@ == "Output path cannot be empty"@),
        variant_id@.len() > 0 && output_path@.len() > 0 && !export_formats().contains(lowercase_of(format@))
            ==> (r matches Err(e) && e@ == unsupported_format_message(format@)),
        variant_id@.len() > 0 && output_path@.len() > 0 && export_formats().contains(lowercase_of(format@))
            ==> (r matches Ok(p) && p@ == output_path@),
{
    if variant_id.as_str().is_empty() {
        return Err(String::from_str("Variant ID cannot be empty"));
    }
    if output_path.as_str().is_empty() {
        return Err(String::from_str("Output path cannot be empty"));
    }
    let lower = to_lowercase(format.as_str());
    if !export_format_supported(lower.as_str()) {
        let mut msg = String::from_str("Unsupported format '");
        msg.append(format.as_str());
        msg.append("'. Supported: [\"png\", \"svg\", \"ico\", \"webp\"]");
        return Err(msg);
    }
    Ok(output_path)
}

} // verus!
