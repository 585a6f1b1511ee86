use vstd::prelude::*;

verus! {

use crate::mux::FrameMux;
use blitz_dom::node::{ImageData, RasterImageData, SpecialElementData};
use vstd::string::StringExecFns;

#[verifier::external_type_specification]
#[verifier::external_body]
pub struct ExBaseDocument(blitz_dom::BaseDocument);

/// Naming convention that binds document elements to logical input slots:
/// slot `i` (0-based) owns every element matching this selector with the
/// 1-based slot number appended.
pub const WEBVFX_SELECTOR_PREFIX: &'static str = "img.webvfx-video";

/// CSS custom property through which the configured animation duration is
/// handed to the document's stylesheets.
pub const WEBVFX_CSS_ANIMATION_PROPERTY: &'static str = "--webvfx-animation-duration";

/// The selector that discovers slot `i`'s elements.
pub open spec fn slot_selector_spec(i: int) -> Seq<char> {
    if i == 0 {
        "img.webvfx-video1"@
    } else if i == 1 {
        "img.webvfx-video2"@
    } else {
        "img.webvfx-video3"@
    }
}

/// The selector for slot `i`, for the one-time discovery scan at
/// construction.  Three slots are as many as any plugin kind has.
pub fn slot_selector(i: usize) -> (s: &'static str)
    requires
        i < 3,
    ensures
        s@ == slot_selector_spec(i as int),
{
    if i == 0 {
        "img.webvfx-video1"
    } else if i == 1 {
        "img.webvfx-video2"
    } else {
        "img.webvfx-video3"
    }
}

/// The user-agent stylesheet that carries the configured animation
/// duration into the document, on its custom property.
pub fn animation_stylesheet(duration: &str) -> (s: String)
    ensures
        s@ == ":root { --webvfx-animation-duration: "@ + duration@ + " }"@,
{
    let mut s = String::from_str(":root { --webvfx-animation-duration: ");
    s.append(duration);
    s.append(" }");
    s
}

/// Relies on blitz_dom::BaseDocument::query_selector_all: the handles of
/// every element the selector matches, in document order.  Which elements
/// those are depends on the document, which is opaque here; a selector
/// that does not parse matches nothing.
#[verifier::external_body]
fn query_slot_handles(doc: &blitz_dom::BaseDocument, selector: &str) -> (r: Vec<usize>)
{
    match doc.query_selector_all(selector) {
        Ok(ids) => ids.into_vec(),
        Err(_) => Vec::new(),
    }
}

/// Relies on blitz_dom::BaseDocument::get_node_mut and the element's image
/// accessors (element_data_mut, raster_image_data_mut): replaces the
/// element's raster image payload with one frame of the given dimensions,
/// installing the payload if the element has none yet.  An absent node or
/// a non-element is left alone, mirroring that discovery found it once and
/// the tree is not restructured afterwards.
#[verifier::external_body]
fn set_element_frame(
    doc: &mut blitz_dom::BaseDocument,
    node_id: usize,
    width: u32,
    height: u32,
    frame: &Vec<u8>,
) {
    let Some(element) = doc.get_node_mut(node_id).and_then(|n| n.element_data_mut()) else {
        return;
    };
    let data = std::sync::Arc::new(frame.clone());
    if let Some(raster) = element.raster_image_data_mut() {
        raster.data = data;
    } else {
        element.special_data =
            SpecialElementData::Image(Box::new(ImageData::Raster(RasterImageData::new(
                width, height, data,
            ))));
    }
}

/// One-time discovery: the element-handle set of each logical input slot,
/// in slot order, by the per-slot naming convention.
pub fn discover_slots(doc: &blitz_dom::BaseDocument, slot_count: usize) -> (sets: Vec<Vec<usize>>)
    requires
        slot_count <= 3,
    ensures
        sets@.len() == slot_count,
{
    let mut sets: Vec<Vec<usize>> = Vec::new();
    let mut i: usize = 0;
    while i < slot_count
        invariant
            i <= slot_count,
            slot_count <= 3,
            sets@.len() == i,
        decreases slot_count - i,
    {
        let handles = query_slot_handles(doc, slot_selector(i));
        sets.push(handles);
        i = i + 1;
    }
    sets
}

/// Project every used slot's currently exposed buffer onto all of its
/// elements.  Run once after construction, so the document starts bound to
/// the parity-0 buffers, and after each update for the slots that were
/// fed, so the document paints the newly stored frames.
pub fn bind_all_slots(doc: &mut blitz_dom::BaseDocument, mux: &FrameMux)
    requires
        mux.wf(),
{
    let mut i: usize = 0;
    while i < mux.slots.len()
        invariant
            i <= mux.slots@.len(),
        decreases mux.slots@.len() - i,
    {
        let handles = mux.node_handles(i);
        let frame = mux.current_buffer(i);
        let mut j: usize = 0;
        while j < handles.len()
            invariant
                j <= handles@.len(),
            decreases handles@.len() - j,
        {
            let node_id = handles[j];
            set_element_frame(doc, node_id, mux.width, mux.height, frame);
            j = j + 1;
        }
        i = i + 1;
    }
}

/// Project the exposed buffer of each slot that took this call's input
/// onto that slot's elements: the rebinding half of one update, with the
/// same fed-slot rule as the multiplexer's (elements discovered and a
/// non-empty input supplied).
pub fn bind_fed_slots(doc: &mut blitz_dom::BaseDocument, mux: &FrameMux, inputs: &Vec<Vec<u8>>)
    requires
        mux.wf(),
        inputs@.len() == mux.slots@.len(),
{
    let mut i: usize = 0;
    while i < inputs.len()
        invariant
            i <= inputs@.len(),
            inputs@.len() == mux.slots@.len(),
        decreases inputs@.len() - i,
    {
        let handles = mux.node_handles(i);
        let fed = !handles.is_empty() && !inputs[i].is_empty();
        if fed {
            let frame = mux.current_buffer(i);
            let mut j: usize = 0;
            while j < handles.len()
                invariant
                    j <= handles@.len(),
                decreases handles@.len() - j,
            {
                let node_id = handles[j];
                set_element_frame(doc, node_id, mux.width, mux.height, frame);
                j = j + 1;
            }
        }
        i = i + 1;
    }
}

} // verus!
