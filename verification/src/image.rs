//! Image metadata: picking the dimensions out of a probe's stream
//! listing.  Running the probe itself is I/O and lives with the
//! caller; the selection rule lives here.

use vstd::prelude::*;

verus! {

/// Width and height of an image.
#[derive(Debug, Clone, Copy, PartialEq, Eq, Structural)]
pub struct ImageMetadata {
    pub width: i32,
    pub height: i32,
}

/// One stream as a probe reports it; either dimension may be missing.
#[derive(Debug, Clone, Copy, PartialEq, Eq, Structural)]
pub struct ProbeStream {
    pub width: Option<i32>,
    pub height: Option<i32>,
}

/// The first stream carrying both dimensions, if any.
pub open spec fn spec_first_metadata(s: Seq<ProbeStream>) -> Option<ImageMetadata>
    decreases s.len(),
{
    if s.len() == 0 {
        None
    } else if s[0].width is Some && s[0].height is Some {
        Some(ImageMetadata { width: s[0].width.unwrap(), height: s[0].height.unwrap() })
    } else {
        spec_first_metadata(s.subrange(1, s.len() as int))
    }
}

/// Pick the dimensions of the first stream that carries both; none
/// means the probe saw no usable stream.
pub fn first_stream_metadata(streams: &Vec<ProbeStream>) -> (r: Option<ImageMetadata>)
    ensures
        r == spec_first_metadata(streams@),
{
    let mut i: usize = 0;
    proof {
        assert(streams@.subrange(0, streams@.len() as int) =~= streams@);
    }
    while i < streams.len()
        invariant
            i <= streams@.len(),
            spec_first_metadata(streams@.subrange(i as int, streams@.len() as int))
                == spec_first_metadata(streams@),
        decreases streams@.len() - i,
    {
        let st = streams[i];
        proof {
            assert(streams@.subrange(i as int, streams@.len() as int)[0] == streams@[i as int]);
            assert(streams@.subrange(i as int, streams@.len() as int).subrange(
                1,
                streams@.len() - i,
            ) =~= streams@.subrange(i + 1 as int, streams@.len() as int));
        }
        if st.width.is_some() && st.height.is_some() {
            return Some(ImageMetadata { width: st.width.unwrap(), height: st.height.unwrap() });
        }
        i = i + 1;
    }
    proof {
        assert(streams@.subrange(streams@.len() as int, streams@.len() as int)
            =~= Seq::<ProbeStream>::empty());
    }
    None
}

} // verus!
