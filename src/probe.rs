//! Interpretation of what the probing tool reports for one file.

use vstd::prelude::*;

verus! {

/// Codec descriptor of the first video stream of a file.
#[derive(Debug)]
pub struct AVProbeMetadata {
    pub video_codec: String,
    pub video_codec_tag: String,
    pub width: u64,
    pub height: u64,
}

/// One stream as the probing tool describes it.
#[derive(Debug)]
pub struct ProbeStream {
    pub codec_name: String,
    pub codec_tag_string: String,
    pub width: u64,
    pub height: u64,
    pub pix_fmt: String,
}

/// Why a file could not be probed.
#[derive(Debug, Clone, Copy, PartialEq, Eq, Structural)]
pub enum ProbeError {
    /// The tool could not be started.
    Launch,
    /// The tool exited with a failure status.
    Status,
    /// The tool's output is not the expected document, or lists no stream.
    Output,
}

impl AVProbeMetadata {
    /// A descriptor with empty names and zero dimensions.
    pub fn empty() -> (r: AVProbeMetadata)
        ensures
            r.video_codec@ == Seq::<char>::empty(),
            r.video_codec_tag@ == Seq::<char>::empty(),
            r.width == 0,
            r.height == 0,
    {
        AVProbeMetadata { video_codec: String::new(), video_codec_tag: String::new(), width: 0, height: 0 }
    }

    /// Whether this descriptor carries exactly the given codec name and tag.
    pub open spec fn is_codec(&self, codec: Seq<char>, tag: Seq<char>) -> bool {
        self.video_codec@ == codec && self.video_codec_tag@ == tag
    }
}

/// Descriptor of the first stream, as the tool reported it.
pub open spec fn describes_stream(m: AVProbeMetadata, s: ProbeStream) -> bool {
    &&& m.video_codec@ == s.codec_name@
    &&& m.video_codec_tag@ == s.codec_tag_string@
    &&& m.width == s.width
    &&& m.height == s.height
}

/// Result of a probe whose tool ran: `exit_success` is its exit status,
/// `streams` the streams of its output, or `None` when the output could not be
/// read as the expected document.
pub fn interpret_probe(exit_success: bool, streams: Option<Vec<ProbeStream>>) -> (r: Result<
    AVProbeMetadata,
    ProbeError,
>)
    ensures
        !exit_success ==> r == Err::<AVProbeMetadata, ProbeError>(ProbeError::Status),
        exit_success && streams is None ==> r == Err::<AVProbeMetadata, ProbeError>(
            ProbeError::Output,
        ),
        exit_success && streams is Some ==> {
            let v = streams->0@;
            if v.len() == 0 {
                r == Err::<AVProbeMetadata, ProbeError>(ProbeError::Output)
            } else {
                r matches Ok(m) && describes_stream(m, v[0])
            }
        },
{
    if !exit_success {
        return Err(ProbeError::Status);
    }
    match streams {
        None => Err(ProbeError::Output),
        Some(v) => {
            if v.len() == 0 {
                Err(ProbeError::Output)
            } else {
                let s = &v[0];
                Ok(
                    AVProbeMetadata {
                        video_codec: s.codec_name.clone(),
                        video_codec_tag: s.codec_tag_string.clone(),
                        width: s.width,
                        height: s.height,
                    },
                )
            }
        },
    }
}

} // verus!
