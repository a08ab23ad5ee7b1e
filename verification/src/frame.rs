//! Newline-delimited protocol frames.
use vstd::prelude::*;
use vstd::slice::*;

use crate::guest_error::{VmGuestError, MAX_FRAME_BYTES};
use crate::text::{first_index, lemma_first_index, lemma_first_index_unique};

verus! {

/// A JSON value of `serde_json`, carried as it is.
#[verifier::external_type_specification]
#[verifier::external_body]
pub struct ExJsonValue(serde_json::Value);

/// The byte that ends a frame.
pub const NEWLINE: u8 = 10;

/// A byte that is dropped when it stands at the end of a frame.
pub const CARRIAGE_RETURN: u8 = 13;

/// What the bytes before a newline say: one carriage return at the end is not part of it.
pub open spec fn frame_content(line: Seq<u8>) -> Seq<u8> {
    if line.len() > 0 && line.last() == CARRIAGE_RETURN {
        line.drop_last()
    } else {
        line
    }
}

/// What feeding a reader gave.
pub enum FrameStep<B = Vec<u8>> {
    /// The input ended between frames.
    EndOfInput,
    /// A frame is complete; this many of the bytes belong to it.
    Frame { consumed: usize, frame: B },
    /// All bytes were taken and the frame is not complete.
    Partial { consumed: usize },
}

/// What reading gave, as values.
pub type Fed = Result<FrameStep<Seq<u8>>, FrameFault>;

/// Why a frame cannot be read.
pub enum FrameFault {
    Closed,
    TooLarge,
}

/// What the next bytes of the input lead to, when `partial` was read before them.
/// No bytes at all mean the end of the input.
pub open spec fn fed(partial: Seq<u8>, available: Seq<u8>) -> Fed {
    let newline = first_index(available, NEWLINE);
    if available.len() == 0 {
        if partial.len() == 0 {
            Ok(FrameStep::EndOfInput)
        } else {
            Err(FrameFault::Closed)
        }
    } else if partial.len() + newline > MAX_FRAME_BYTES {
        Err(FrameFault::TooLarge)
    } else if newline < available.len() {
        Ok(
            FrameStep::Frame {
                consumed: (newline + 1) as usize,
                frame: frame_content(partial + available.take(newline)),
            },
        )
    } else {
        Ok(FrameStep::Partial { consumed: available.len() as usize })
    }
}

/// Collects one frame from the input.
pub struct FrameReader {
    frame: Vec<u8>,
}

impl View for FrameReader {
    type V = Seq<u8>;

    closed spec fn view(&self) -> Seq<u8> {
        self.frame@
    }
}

impl FrameReader {
    /// A reader that has read nothing of its frame.
    pub fn new() -> (reader: FrameReader)
        ensures
            reader@ == Seq::<u8>::empty(),
    {
        FrameReader { frame: Vec::new() }
    }

    /// Takes the bytes that are available next; none at the end of the input.
    pub fn feed(&mut self, available: &[u8]) -> (step: Result<FrameStep, VmGuestError>)
        ensures
            match (step, fed(old(self)@, available@)) {
                (Ok(FrameStep::EndOfInput), Ok(FrameStep::EndOfInput)) => final(self)@ == old(
                    self,
                )@,
                (
                    Ok(FrameStep::Frame { consumed, frame }),
                    Ok(FrameStep::Frame { consumed: taken, frame: content }),
                ) => consumed == taken && frame@ == content && final(self)@ == Seq::<u8>::empty(),
                (
                    Ok(FrameStep::Partial { consumed }),
                    Ok(FrameStep::Partial { consumed: taken }),
                ) => consumed == taken && final(self)@ == old(self)@ + available@,
                (Err(VmGuestError::Closed), Err(FrameFault::Closed)) => final(self)@ == old(self)@,
                (Err(VmGuestError::FrameTooLarge), Err(FrameFault::TooLarge)) => final(self)@
                    == old(self)@,
                _ => false,
            },
    {
        if available.len() == 0 {
            return if self.frame.len() == 0 {
                Ok(FrameStep::EndOfInput)
            } else {
                Err(VmGuestError::Closed)
            };
        }
        let mut newline: usize = 0;
        while newline < available.len() && available[newline] != NEWLINE
            invariant
                newline <= available@.len(),
                forall|i: int| 0 <= i < newline ==> available@[i] != NEWLINE,
            decreases available@.len() - newline,
        {
            newline += 1;
        }
        proof {
            lemma_first_index_unique(available@, NEWLINE, newline as int);
        }
        if self.frame.len().saturating_add(newline) > MAX_FRAME_BYTES {
            return Err(VmGuestError::FrameTooLarge);
        }
        self.frame.extend_from_slice(slice_subrange(available, 0, newline));
        if newline == available.len() {
            assert(available@.subrange(0, newline as int) =~= available@);
            return Ok(FrameStep::Partial { consumed: newline });
        }
        assert(available@.subrange(0, newline as int) =~= available@.take(newline as int));
        let mut frame: Vec<u8> = Vec::new();
        frame.append(&mut self.frame);
        if frame.len() > 0 && frame[frame.len() - 1] == CARRIAGE_RETURN {
            let _ = frame.pop();
        }
        Ok(FrameStep::Frame { consumed: newline + 1, frame })
    }
}

/// Ends an encoded response with a newline, when it fits a frame.
pub fn response_frame(encoded: Vec<u8>) -> (frame: Result<Vec<u8>, VmGuestError>)
    ensures
        match frame {
            Ok(frame) => encoded@.len() <= MAX_FRAME_BYTES && frame@ == encoded@.push(NEWLINE),
            Err(error) => encoded@.len() > MAX_FRAME_BYTES && error is FrameTooLarge,
        },
{
    if encoded.len() > MAX_FRAME_BYTES {
        return Err(VmGuestError::FrameTooLarge);
    }
    let mut frame = encoded;
    frame.push(NEWLINE);
    Ok(frame)
}

/// The compact JSON text that `serde_json::to_vec` writes for a value.
pub uninterp spec fn json_text(value: serde_json::Value) -> Seq<u8>;

/// `serde_json::to_vec` of a JSON value: its compact text. Writing it into memory
/// never fails, since the keys of a value are strings. A text is never empty, and
/// it holds no control character: those of a string are written as escapes, and
/// nothing is put between the parts of a value.
#[verifier::external_body]
fn json_bytes(value: &serde_json::Value) -> (encoded: Result<Vec<u8>, serde_json::Error>)
    ensures
        encoded is Ok,
        encoded->Ok_0@ == json_text(*value),
        encoded->Ok_0@.len() > 0,
        forall|i: int| 0 <= i < encoded->Ok_0@.len() ==> #[trigger] encoded->Ok_0@[i] >= 32,
{
    serde_json::to_vec(value)
}

/// Encodes a response and ends it with a newline, when it fits a frame. A reader
/// of the frame gets the encoding back as it is, whatever follows the frame.
pub fn encode_frame(value: &serde_json::Value) -> (frame: Result<Vec<u8>, VmGuestError>)
    ensures
        frame is Ok <==> json_text(*value).len() <= MAX_FRAME_BYTES,
        match frame {
            Ok(frame) => {
                &&& json_text(*value).len() <= MAX_FRAME_BYTES
                &&& frame@ == json_text(*value).push(NEWLINE)
                &&& forall|rest: Seq<u8>| #[trigger]
                    first_frame(frame@ + rest) == (Reading::Frame { frame: json_text(*value), rest })
            },
            Err(error) => error is FrameTooLarge && json_text(*value).len() > MAX_FRAME_BYTES,
        },
{
    let encoded = match json_bytes(value) {
        Ok(encoded) => encoded,
        Err(error) => return Err(VmGuestError::Json(error)),
    };
    let frame = response_frame(encoded);
    proof {
        let text = json_text(*value);
        if text.len() <= MAX_FRAME_BYTES {
            assert(!text.contains(NEWLINE));
            assert forall|rest: Seq<u8>| #[trigger]
                first_frame(text.push(NEWLINE) + rest) == (Reading::Frame { frame: text, rest }) by {
                law_written_frame_is_read_back(text, rest);
            }
        }
    }
    frame
}

/// The first frame of a whole input.
pub enum Reading {
    EndOfInput,
    Frame { frame: Seq<u8>, rest: Seq<u8> },
    Fault(FrameFault),
}

/// The first frame of an input that is `input` in all.
pub open spec fn first_frame(input: Seq<u8>) -> Reading {
    let newline = first_index(input, NEWLINE);
    if newline > MAX_FRAME_BYTES {
        Reading::Fault(FrameFault::TooLarge)
    } else if newline < input.len() {
        Reading::Frame { frame: frame_content(input.take(newline)), rest: input.skip(newline + 1) }
    } else if input.len() == 0 {
        Reading::EndOfInput
    } else {
        Reading::Fault(FrameFault::Closed)
    }
}

/// The pieces of an input, put together.
pub open spec fn whole(pieces: Seq<Seq<u8>>) -> Seq<u8>
    decreases pieces.len(),
{
    if pieces.len() == 0 {
        Seq::empty()
    } else {
        pieces[0] + whole(pieces.skip(1))
    }
}

/// What a reader that has read `partial` makes of an input that comes in `pieces`.
pub open spec fn read_pieces(partial: Seq<u8>, pieces: Seq<Seq<u8>>) -> Reading
    decreases pieces.len(),
{
    let available = if pieces.len() == 0 {
        Seq::empty()
    } else {
        pieces[0]
    };
    match fed(partial, available) {
        Err(fault) => Reading::Fault(fault),
        Ok(FrameStep::EndOfInput) => Reading::EndOfInput,
        Ok(FrameStep::Frame { consumed, frame }) => Reading::Frame {
            frame,
            rest: available.skip(consumed as int) + whole(pieces.skip(1)),
        },
        Ok(FrameStep::Partial { .. }) => if pieces.len() == 0 {
            Reading::EndOfInput
        } else {
            read_pieces(partial + pieces[0], pieces.skip(1))
        },
    }
}

/// How the input is cut into pieces does not matter: the reader finds the frame
/// that the whole input starts with, or the fault that it has.
pub proof fn law_frames_do_not_depend_on_pieces(partial: Seq<u8>, pieces: Seq<Seq<u8>>)
    requires
        !partial.contains(NEWLINE),
        partial.len() <= MAX_FRAME_BYTES,
        forall|i: int| 0 <= i < pieces.len() ==> 0 < (#[trigger] pieces[i]).len() <= usize::MAX,
    ensures
        read_pieces(partial, pieces) == first_frame(partial + whole(pieces)),
    decreases pieces.len(),
{
    let input = partial + whole(pieces);
    if pieces.len() == 0 {
        assert(input =~= partial);
        lemma_first_index(partial, NEWLINE);
        lemma_first_index(Seq::<u8>::empty(), NEWLINE);
    } else {
        let available = pieces[0];
        let rest = whole(pieces.skip(1));
        let newline = first_index(available, NEWLINE);
        lemma_first_index(available, NEWLINE);
        lemma_first_index(input, NEWLINE);
        assert(input =~= partial + available + rest);
        assert forall|i: int| 0 <= i < partial.len() + newline implies input[i] != NEWLINE by {
            if i < partial.len() {
                assert(partial[i] != NEWLINE);
            } else {
                assert(input[i] == available[i - partial.len()]);
            }
        }
        if newline < available.len() {
            lemma_first_index_unique(input, NEWLINE, partial.len() + newline);
            assert(input.take(partial.len() + newline) =~= partial + available.take(newline));
            assert(input.skip(partial.len() + newline + 1) =~= available.skip(newline + 1) + rest);
        } else {
            assert(first_index(input, NEWLINE) >= partial.len() + newline) by {
                if first_index(input, NEWLINE) < partial.len() + newline {
                    assert(input[first_index(input, NEWLINE)] != NEWLINE);
                }
            }
            if partial.len() + newline <= MAX_FRAME_BYTES {
                let more = partial + available;
                assert(!more.contains(NEWLINE)) by {
                    assert forall|i: int| 0 <= i < more.len() implies more[i] != NEWLINE by {
                        assert(more[i] == input[i]);
                    }
                }
                law_frames_do_not_depend_on_pieces(more, pieces.skip(1));
            }
        }
    }
}

/// A frame that was written is read back as it was, whatever follows it, unless
/// it holds a newline or ends in a carriage return; where nothing follows, the
/// input has ended.
pub proof fn law_written_frame_is_read_back(encoded: Seq<u8>, rest: Seq<u8>)
    requires
        encoded.len() <= MAX_FRAME_BYTES,
        !encoded.contains(NEWLINE),
        encoded.len() == 0 || encoded.last() != CARRIAGE_RETURN,
    ensures
        first_frame(encoded.push(NEWLINE) + rest) == (Reading::Frame { frame: encoded, rest }),
        rest.len() == 0 ==> first_frame(rest) == Reading::EndOfInput,
{
    lemma_first_index(rest, NEWLINE);
    let input = encoded.push(NEWLINE) + rest;
    assert forall|i: int| 0 <= i < encoded.len() implies input[i] != NEWLINE by {
        assert(input[i] == encoded[i]);
    }
    lemma_first_index_unique(input, NEWLINE, encoded.len() as int);
    assert(input.take(encoded.len() as int) =~= encoded);
    assert(input.skip(encoded.len() as int + 1) =~= rest);
}

} // verus!
