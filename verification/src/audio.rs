//! What the broadcast loop reads from a transcoder: audio chunks,
//! end of stream, or an error text.

use vstd::prelude::*;

verus! {

/// One read from a transcoder's output. An empty chunk means the
/// stream ended.
#[derive(Debug)]
pub enum Data {
    /// Audio bytes; empty at end of stream.
    Audio(Vec<u8>),
    /// The transcoder reported an error; playback of the track ends.
    Error(String),
}

/// A source of encoded audio reads. The broadcast loop's per-read
/// decision ([`crate::player::Player::pump_step`]) is proved for every
/// possible read, so nothing is assumed of implementations.
pub trait AudioReader {
    /// The next read: audio bytes, end of stream, or an error.
    fn read_data(&mut self) -> Result<Data, String>;
}

/// A reader that replays a fixed script of reads, then reports end of
/// stream forever.
pub struct ScriptReader {
    script: Vec<Data>,
}

impl ScriptReader {
    pub closed spec fn spec_remaining(&self) -> Seq<Data> {
        self.script@
    }

    /// A reader that will yield the items of `script` in order.
    pub fn new(script: Vec<Data>) -> (r: ScriptReader)
        ensures
            r.spec_remaining() == script@,
    {
        ScriptReader { script }
    }
}

impl AudioReader for ScriptReader {
    fn read_data(&mut self) -> (r: Result<Data, String>)
        ensures
            old(self).spec_remaining().len() > 0 ==> r == Ok::<Data, String>(
                old(self).spec_remaining()[0],
            ) && final(self).spec_remaining() == old(self).spec_remaining().drop_first(),
            old(self).spec_remaining().len() == 0 ==> (r matches Ok(d) && d matches
                Data::Audio(b) && b@.len() == 0) && final(self).spec_remaining() == old(self).spec_remaining(),
    {
        if self.script.len() == 0 {
            Ok(Data::Audio(Vec::new()))
        } else {
            let d = self.script.remove(0);
            Ok(d)
        }
    }
}

} // verus!
