use vstd::prelude::*;
use vstd::string::StringExecFns;
use crate::encoding::{base64_of, encodable, encode_standard};

verus! {

/// One step of a capture, in the order in which they run.
#[derive(Clone, Copy, Debug, PartialEq, Eq, Structural)]
pub enum Stage {
    Launch,
    OpenTab,
    Navigate,
    WaitForLoad,
    Capture,
}

impl Stage {
    /// Position of the stage in the capture, from 0 (launch) to 4 (capture).
    pub open spec fn index(self) -> nat {
        match self {
            Stage::Launch => 0,
            Stage::OpenTab => 1,
            Stage::Navigate => 2,
            Stage::WaitForLoad => 3,
            Stage::Capture => 4,
        }
    }

    /// The text that a failure of this stage puts before the diagnostic.
    pub open spec fn failure_prefix_spec(self) -> Seq<char> {
        match self {
            Stage::Launch => "Error launching browser: "@,
            Stage::OpenTab => "Error creating new tab: "@,
            Stage::Navigate => "Error navigating to URL: "@,
            Stage::WaitForLoad => "Error waiting for navigation: "@,
            Stage::Capture => "Error capturing screenshot: "@,
        }
    }

    pub fn failure_prefix(&self) -> (r: &'static str)
        ensures
            r@ == self.failure_prefix_spec(),
    {
        match self {
            Stage::Launch => "Error launching browser: ",
            Stage::OpenTab => "Error creating new tab: ",
            Stage::Navigate => "Error navigating to URL: ",
            Stage::WaitForLoad => "Error waiting for navigation: ",
            Stage::Capture => "Error capturing screenshot: ",
        }
    }
}

/// The stages of a capture, in order.
pub open spec fn all_stages() -> Seq<Stage> {
    seq![Stage::Launch, Stage::OpenTab, Stage::Navigate, Stage::WaitForLoad, Stage::Capture]
}

/// The stages that run before `s`.
pub open spec fn stages_before(s: Stage) -> Seq<Stage> {
    all_stages().take(s.index() as int)
}

/// What a data URI of a PNG image starts with.
pub open spec fn png_data_uri_prefix() -> Seq<char> {
    "data:image/png;base64,"@
}

/// The data URI of the PNG image `frame`.
pub open spec fn png_data_uri(frame: Seq<u8>) -> Seq<char> {
    png_data_uri_prefix() + base64_of(frame)
}

/// The message of a capture that went through.
pub open spec fn success_message() -> Seq<char> {
    "Screenshot taken successfully"@
}

/// What a capture hands back to its caller.
#[derive(Debug)]
pub struct ScreenshotResult {
    pub success: bool,
    pub message: Option<String>,
    /// The image as a data URI, present exactly when `success` holds.
    pub image_data: Option<String>,
}

impl ScreenshotResult {
    /// Image data comes exactly with success, and a failure always says why.
    pub open spec fn is_well_formed(&self) -> bool {
        &&& self.success <==> self.image_data is Some
        &&& self.message is Some
        &&& !self.success ==> self.message->0@.len() > 0
    }

    /// The result of a capture whose frame is `frame`.
    pub open spec fn is_taken(&self, frame: Seq<u8>) -> bool {
        &&& self.success
        &&& self.message is Some && self.message->0@ == success_message()
        &&& self.image_data is Some && self.image_data->0@ == png_data_uri(frame)
    }

    /// The result of a capture that failed at `stage` with `diagnostic`.
    pub open spec fn is_failed(&self, stage: Stage, diagnostic: Seq<char>) -> bool {
        &&& !self.success
        &&& self.message is Some && self.message->0@ == stage.failure_prefix_spec() + diagnostic
        &&& self.image_data is None
    }

    /// A successful result carrying `frame` as a PNG data URI.
    pub fn taken(frame: &Vec<u8>) -> (r: Self)
        requires
            encodable(frame@.len()),
        ensures
            r.is_taken(frame@),
            r.is_well_formed(),
    {
        let payload = encode_standard(frame);
        let mut uri = String::from_str("data:image/png;base64,");
        uri.append(payload.as_str());
        ScreenshotResult {
            success: true,
            message: Some(String::from_str("Screenshot taken successfully")),
            image_data: Some(uri),
        }
    }

    /// A failed result for `stage`, whose message carries `diagnostic`.
    pub fn failed(stage: Stage, diagnostic: &str) -> (r: Self)
        ensures
            r.is_failed(stage, diagnostic@),
            r.is_well_formed(),
    {
        let mut message = String::from_str(stage.failure_prefix());
        message.append(diagnostic);
        proof {
            reveal_strlit("Error launching browser: ");
            reveal_strlit("Error creating new tab: ");
            reveal_strlit("Error navigating to URL: ");
            reveal_strlit("Error waiting for navigation: ");
            reveal_strlit("Error capturing screenshot: ");
        }
        ScreenshotResult { success: false, message: Some(message), image_data: None }
    }
}

/// The image data of a capture starts with the PNG data URI prefix and is
/// never empty; its payload is base64 that decodes to the captured frame.
pub proof fn lemma_png_data_uri_shape(frame: Seq<u8>)
    ensures
        png_data_uri(frame).len() > 0,
        png_data_uri(frame).take(png_data_uri_prefix().len() as int) == png_data_uri_prefix(),
        png_data_uri(frame).skip(png_data_uri_prefix().len() as int) == base64_of(frame),
        crate::encoding::is_base64(base64_of(frame)),
        crate::encoding::base64_decode(base64_of(frame)) == frame,
{
    reveal_strlit("data:image/png;base64,");
    let p = png_data_uri_prefix();
    assert(png_data_uri(frame).take(p.len() as int) =~= p);
    assert(png_data_uri(frame).skip(p.len() as int) =~= base64_of(frame));
    crate::encoding::lemma_base64_round_trip(frame);
}

} // verus!
