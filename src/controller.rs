use vstd::prelude::*;

use std::sync::mpsc::Sender;

verus! {

#[verifier::external_type_specification]
#[verifier::external_body]
#[verifier::reject_recursive_types(T)]
pub struct ExSender<T>(Sender<T>);

/// Relies on `Sender::clone`: another sender into the same channel.
pub assume_specification<T>[ <Sender<T> as Clone>::clone ](tx: &Sender<T>) -> Sender<T>;

/// A request to the thread that owns the capture stream.
#[derive(Debug)]
pub enum AudioCommand {
    /// Drop the current stream and build one on the named device (or the default one).
    Rebuild { device: Option<String> },
}

/// Sample encodings that a capture device may deliver.
#[derive(Clone, Copy, Debug, PartialEq, Eq)]
pub enum SampleEncoding {
    I16,
    U16,
    F32,
}

/// Start of the message of a rebuild request that could not be queued.
pub const SEND_FAILURE_PREFIX: &'static str = "failed to send audio command: ";

/// Handle through which other threads ask the capture thread to change device. It keeps,
/// as a ghost record, the commands it has queued.
#[derive(Clone)]
pub struct AudioController {
    tx: Sender<AudioCommand>,
    log: Ghost<Seq<AudioCommand>>,
}

impl AudioController {
    /// The commands queued through this handle, oldest first.
    pub closed spec fn sent(&self) -> Seq<AudioCommand> {
        self.log@
    }

    pub fn new(tx: Sender<AudioCommand>) -> (c: Self)
        ensures
            c.sent() == Seq::<AudioCommand>::empty(),
    {
        AudioController { tx, log: Ghost(Seq::empty()) }
    }

    /// Relies on `Sender::send`: `Ok` exactly when the command was queued for the receiver,
    /// an error (with nothing queued) when the receiver has gone; the error comes back as
    /// its displayed text.
    #[verifier::external_body]
    fn send_command(&mut self, cmd: AudioCommand) -> (r: Result<(), String>)
        ensures
            r is Ok ==> final(self).log@ == old(self).log@.push(cmd),
            r is Err ==> final(self).log@ == old(self).log@,
            final(self).tx == old(self).tx,
    {
        self.tx.send(cmd).map_err(|e| e.to_string())
    }

    /// Asks the capture thread to rebuild its stream on the named device. On success the
    /// rebuild command is queued; on failure nothing is, and the message is
    /// `failed to send audio command: ` followed by the channel's error.
    pub fn set_device(&mut self, name: Option<String>) -> (r: Result<(), String>)
        ensures
            r is Ok ==> final(self).sent() == old(self).sent().push(AudioCommand::Rebuild { device: name }),
            r is Err ==> final(self).sent() == old(self).sent(),
            r matches Err(msg) ==> exists|cause: Seq<char>| msg@ == SEND_FAILURE_PREFIX@ + cause,
    {
        match self.send_command(AudioCommand::Rebuild { device: name }) {
            Ok(()) => Ok(()),
            Err(cause) => {
                let msg = String::from_str(SEND_FAILURE_PREFIX).concat(cause.as_str());
                proof {
                    assert(msg@ == SEND_FAILURE_PREFIX@ + cause@);
                }
                Err(msg)
            },
        }
    }
}

/// Index of the first device whose name could be read and equals `preferred`.
pub open spec fn device_match(names: Seq<Option<String>>, preferred: Seq<char>, i: int) -> bool {
    0 <= i < names.len() && names[i] is Some && names[i]->Some_0@ == preferred
}

/// Picks the capture device: the first one named `preferred`, or `None`, in which case
/// the system's default input device is to be used. Devices whose name could not be
/// read are `None` in `names`.
pub fn pick_device(names: &Vec<Option<String>>, preferred: Option<&str>) -> (r: Option<usize>)
    ensures
        preferred is None ==> r is None,
        preferred matches Some(p) ==> match r {
            Some(i) => device_match(names@, p@, i as int) && forall|k: int|
                0 <= k < i ==> !device_match(names@, p@, k),
            None => forall|k: int| !device_match(names@, p@, k),
        },
{
    let p = match preferred {
        Some(p) => p,
        None => {
            return None;
        },
    };
    let mut i: usize = 0;
    while i < names.len()
        invariant
            preferred == Some(p),
            i <= names@.len(),
            forall|k: int| 0 <= k < i ==> !device_match(names@, p@, k),
        decreases names@.len() - i,
    {
        match &names[i] {
            Some(n) => {
                if crate::text::str_eq(n.as_str(), p) {
                    return Some(i);
                }
            },
            None => {},
        }
        i = i + 1;
    }
    None
}

/// Unsigned 16-bit samples as signed ones: the midpoint 32768 becomes zero.
pub fn convert_u16_samples(data: &Vec<u16>) -> (r: Vec<i16>)
    ensures
        r@.len() == data@.len(),
        forall|i: int| 0 <= i < data@.len() ==> #[trigger] r@[i] as int == data@[i] as int - 32768,
{
    let mut r: Vec<i16> = Vec::with_capacity(data.len());
    let mut i: usize = 0;
    while i < data.len()
        invariant
            i <= data@.len(),
            r@.len() == i,
            forall|k: int| 0 <= k < i ==> #[trigger] r@[k] as int == data@[k] as int - 32768,
        decreases data@.len() - i,
    {
        let v = (data[i] as i32 - 32768) as i16;
        r.push(v);
        i = i + 1;
    }
    r
}

} // verus!
