//! Tool output fixtures for notifications: a tool output that carries
//! inline media, and the same output with the media items dropped.

use vstd::prelude::*;
use crate::protocol::{FunctionCallOutputContentItem, ImageDetail};

verus! {

/// An inline PNG image, a WAV audio clip, a text item and an encrypted item.
pub fn tool_output_items() -> (r: Vec<FunctionCallOutputContentItem>)
    ensures
        r@.len() == 4,
        r@[0] matches FunctionCallOutputContentItem::InputImage { image_url, detail } && image_url@
            == "data:image/png;base64,image"@ && detail == Some(ImageDetail::High),
        r@[1] matches FunctionCallOutputContentItem::InputAudio { audio_url } && audio_url@
            == "data:audio/wav;base64,audio"@,
        r@[2] matches FunctionCallOutputContentItem::InputText { text } && text@ == "keep text"@,
        r@[3] matches FunctionCallOutputContentItem::EncryptedContent { encrypted_content }
            && encrypted_content@ == "keep encrypted"@,
{
    let mut items: Vec<FunctionCallOutputContentItem> = Vec::new();
    items.push(
        FunctionCallOutputContentItem::InputImage {
            image_url: "data:image/png;base64,image".to_owned(),
            detail: Some(ImageDetail::High),
        },
    );
    items.push(
        FunctionCallOutputContentItem::InputAudio { audio_url: "data:audio/wav;base64,audio".to_owned() },
    );
    items.push(FunctionCallOutputContentItem::InputText { text: "keep text".to_owned() });
    items.push(
        FunctionCallOutputContentItem::EncryptedContent { encrypted_content: "keep encrypted".to_owned() },
    );
    items
}

/// The items of `tool_output_items` that are not media: the text item and
/// the encrypted item.
pub fn filtered_tool_output_items() -> (r: Vec<FunctionCallOutputContentItem>)
    ensures
        r@.len() == 2,
        r@[0] matches FunctionCallOutputContentItem::InputText { text } && text@ == "keep text"@,
        r@[1] matches FunctionCallOutputContentItem::EncryptedContent { encrypted_content }
            && encrypted_content@ == "keep encrypted"@,
{
    let mut items: Vec<FunctionCallOutputContentItem> = Vec::new();
    items.push(FunctionCallOutputContentItem::InputText { text: "keep text".to_owned() });
    items.push(
        FunctionCallOutputContentItem::EncryptedContent { encrypted_content: "keep encrypted".to_owned() },
    );
    items
}

} // verus!
