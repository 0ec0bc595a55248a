use std::sync::Arc;
use crate::error::ResourceError;
use vstd::prelude::*;

verus! {

/// The eight bytes that open a clip file: "CSFX " and the version 0.0.1.
pub const MAGIC: [u8; 8] = [67, 83, 70, 88, 32, 0, 0, 1];

pub open spec fn magic_bytes() -> Seq<u8> {
    seq![67u8, 83u8, 70u8, 88u8, 32u8, 0u8, 0u8, 1u8]
}

/// Whether `bytes` opens with the clip magic.
pub open spec fn has_magic(bytes: Seq<u8>) -> bool {
    bytes.len() >= 8 && bytes.subrange(0, 8) == magic_bytes()
}

/// A decoded audio clip.
pub struct AudioClip {
    pub channels: u8,
    pub sample_rate: u32,
    pub pcm: Vec<i16>,
}

/// Turns the bytes of a clip file into an `AudioClip`.
#[derive(Clone, Copy)]
pub struct AudioClipLoader {}

impl AudioClipLoader {
    pub fn new() -> (r: Self) {
        AudioClipLoader {  }
    }

    fn starts_with_magic(head: &[u8]) -> (r: bool)
        requires
            head@.len() == 8,
        ensures
            r == (head@ == magic_bytes()),
    {
        let r = head[0] == 67 && head[1] == 83 && head[2] == 70 && head[3] == 88
            && head[4] == 32 && head[5] == 0 && head[6] == 0 && head[7] == 1;
        if r {
            assert(head@ =~= magic_bytes());
        }
        r
    }

    /// Checks the magic and hands back the Ogg Vorbis stream that follows it;
    /// a missing magic is a parse failure.
    pub fn stream<'a>(&self, bytes: &'a [u8]) -> (r: Result<&'a [u8], ResourceError>)
        ensures
            match r {
                Ok(stream) => has_magic(bytes@) && stream@ == bytes@.subrange(8, bytes@.len() as int),
                Err(e) => e == ResourceError::ParseFailure && !has_magic(bytes@),
            },
    {
        if bytes.len() < 8 {
            return Err(ResourceError::ParseFailure);
        }
        let (head, stream) = bytes.split_at(8);
        if !Self::starts_with_magic(head) {
            assert(bytes@.subrange(0, 8) =~= head@);
            return Err(ResourceError::ParseFailure);
        }
        assert(bytes@.subrange(0, 8) =~= head@);
        Ok(stream)
    }

    /// Builds the clip from what decoding the stream gave: channel count,
    /// sample rate and interleaved samples, or nothing when the stream could
    /// not be decoded, which is a parse failure.
    pub fn clip(&self, decoded: Option<(u8, u32, Vec<i16>)>) -> (r: Result<AudioClip, ResourceError>)
        ensures
            match decoded {
                Some(d) => r matches Ok(c) && c.channels == d.0 && c.sample_rate == d.1 && c.pcm@ == d.2@,
                None => r == Err::<AudioClip, ResourceError>(ResourceError::ParseFailure),
            },
    {
        match decoded {
            Some((channels, sample_rate, pcm)) => Ok(AudioClip { channels, sample_rate, pcm }),
            None => Err(ResourceError::ParseFailure),
        }
    }

    /// Shares a decoded clip.
    pub fn attach(&self, item: AudioClip) -> (r: Arc<AudioClip>)
        ensures
            *r == item,
    {
        Arc::new(item)
    }

    /// Releases a shared clip: nothing to do.
    pub fn detach(&self, _item: Arc<AudioClip>) {
    }
}

} // verus!
