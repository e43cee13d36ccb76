//! The Apple SMC protocol: request parameters, reply checks, the write
//! verification, the probing order of the charging keys and the fallback
//! writes. The IOKit calls themselves are made by the program around the
//! library, which hands each reply back.
use vstd::prelude::*;
use vstd::string::StringExecFns;
use crate::text;

verus! {

/// Command byte: read a key's metadata.
pub const K_SMC_GET_KEY_INFO: u8 = 9;

/// Command byte: read a key.
pub const K_SMC_READ_KEY: u8 = 5;

/// Command byte: write a key.
pub const K_SMC_WRITE_KEY: u8 = 6;

/// The result byte of a successful SMC call.
pub const K_SMC_SUCCESS: u8 = 0;

/// The size of the data buffer of an SMC call.
pub const SMC_BUFFER: usize = 32;

/// Key metadata returned by SMC for each key.
#[derive(Clone, Copy, Debug, PartialEq, Eq, Structural)]
pub struct SMCKeyInfoData {
    pub data_size: u32,
    pub data_type: u32,
    pub data_attributes: u8,
}

/// The kinds of SMC failures.
#[derive(Clone, Copy, Debug, PartialEq, Eq, Structural)]
pub enum SmcErrorKind {
    NotFound,
    Other,
    InvalidInput,
    InvalidData,
    Unsupported,
}

/// An SMC failure with its message.
#[derive(Clone, Debug)]
pub struct SmcError {
    pub kind: SmcErrorKind,
    pub message: String,
}

impl SmcError {
    /// A copy of the error.
    pub fn copy(&self) -> (r: SmcError)
        ensures
            r.kind == self.kind,
            r.message@ == self.message@,
    {
        SmcError { kind: self.kind, message: self.message.clone() }
    }
}

/// The parameter block of one SMC call (the fields the protocol uses).
#[derive(Clone, Debug)]
pub struct SmcParams {
    pub key: u32,
    pub data8: u8,
    pub key_info: SMCKeyInfoData,
    pub result: u8,
    pub bytes: Vec<u8>,
}

/// A handle to an open SMC connection.
pub struct SmcHandle {
    pub connect: u32,
}

/// The 32-bit code of a four-letter key, big-endian.
pub open spec fn key_code_of(key: Seq<u8>) -> nat {
    (key[0] as nat) * 16777216 + (key[1] as nat) * 65536 + (key[2] as nat) * 256 + (key[3] as nat)
}

/// `u32::from_be_bytes` of a key.
pub fn key_code(key: &[u8; 4]) -> (c: u32)
    ensures
        c as nat == key_code_of(key@),
{
    (key[0] as u32) * 16777216 + (key[1] as u32) * 65536 + (key[2] as u32) * 256 + (key[3] as u32)
}

/// Bytes in the form `{:?}` prints them: `[1, 2, 3]`.
pub open spec fn bytes_debug(s: Seq<u8>) -> Seq<char> {
    "["@ + bytes_items(s) + "]"@
}

/// The comma-separated decimal values of `s`.
pub open spec fn bytes_items(s: Seq<u8>) -> Seq<char>
    decreases s.len(),
{
    if s.len() == 0 {
        Seq::empty()
    } else if s.len() == 1 {
        text::decimal(s[0] as nat)
    } else {
        bytes_items(s.drop_last()) + ", "@ + text::decimal(s.last() as nat)
    }
}

fn push_bytes_debug(out: &mut Vec<char>, b: &Vec<u8>)
    ensures
        final(out)@ == old(out)@ + bytes_debug(b@),
{
    text::push_str(out, "[");
    let ghost start = out@;
    let mut i: usize = 0;
    while i < b.len()
        invariant
            i <= b.len(),
            out@ == start + bytes_items(b@.subrange(0, i as int)),
        decreases b.len() - i,
    {
        let ghost prev = b@.subrange(0, i as int);
        assert(b@.subrange(0, i + 1).drop_last() =~= prev);
        if i > 0 {
            text::push_str(out, ", ");
        }
        text::push_decimal(out, b[i] as u64);
        proof {
            if i == 0 {
                assert(out@ =~= start + bytes_items(b@.subrange(0, 1)));
            } else {
                assert(out@ =~= start + bytes_items(b@.subrange(0, i + 1)));
            }
        }
        i = i + 1;
    }
    assert(b@.subrange(0, b.len() as int) =~= b@);
    text::push_str(out, "]");
    assert(out@ =~= old(out)@ + bytes_debug(b@));
}

fn key_vec(key: &[u8; 4]) -> (v: Vec<u8>)
    ensures
        v@ == key@,
{
    let v = vec![key[0], key[1], key[2], key[3]];
    assert(v@ =~= key@);
    v
}

/// `message` followed by the key as `{:?}` prints it, `middle`, and a number.
fn keyed_message(head: &str, key: &[u8; 4], middle: &str, code: u8) -> (s: String)
    ensures
        s@ == head@ + bytes_debug(key@) + middle@ + text::decimal(code as nat),
{
    let mut out: Vec<char> = Vec::new();
    text::push_str(&mut out, head);
    push_bytes_debug(&mut out, &key_vec(key));
    text::push_str(&mut out, middle);
    text::push_decimal(&mut out, code as u64);
    assert(out@ =~= head@ + bytes_debug(key@) + middle@ + text::decimal(code as nat));
    text::string_of(&out)
}

/// A zeroed data buffer.
fn zero_buffer() -> (v: Vec<u8>)
    ensures
        v@.len() == SMC_BUFFER,
        forall|i: int| 0 <= i < SMC_BUFFER ==> v@[i] == 0,
{
    let mut v: Vec<u8> = Vec::new();
    while v.len() < SMC_BUFFER
        invariant
            v@.len() <= SMC_BUFFER,
            forall|i: int| 0 <= i < v@.len() ==> v@[i] == 0,
        decreases SMC_BUFFER - v.len(),
    {
        v.push(0);
    }
    v
}

/// The parameters of a metadata request for `key`.
pub fn key_info_request(key: &[u8; 4]) -> (p: SmcParams)
    ensures
        p.key as nat == key_code_of(key@),
        p.data8 == K_SMC_GET_KEY_INFO,
        p.key_info == (SMCKeyInfoData { data_size: 0, data_type: 0, data_attributes: 0 }),
        p.result == 0,
        p.bytes@.len() == SMC_BUFFER,
        forall|i: int| 0 <= i < SMC_BUFFER ==> p.bytes@[i] == 0,
{
    SmcParams {
        key: key_code(key),
        data8: K_SMC_GET_KEY_INFO,
        key_info: SMCKeyInfoData { data_size: 0, data_type: 0, data_attributes: 0 },
        result: 0,
        bytes: zero_buffer(),
    }
}

/// Checks a metadata reply: the key's metadata when the SMC reports success.
pub fn key_info_from_reply(key: &[u8; 4], reply: &SmcParams) -> (r: Result<SMCKeyInfoData, SmcError>)
    ensures
        reply.result == K_SMC_SUCCESS ==> r == Ok::<SMCKeyInfoData, SmcError>(reply.key_info),
        reply.result != K_SMC_SUCCESS ==> (r matches Err(e) && e.kind == SmcErrorKind::Other
            && e.message@ == "SMC GetKeyInfo for "@ + bytes_debug(key@) + " returned error: "@
            + text::decimal(reply.result as nat)),
{
    if reply.result != K_SMC_SUCCESS {
        return Err(
            SmcError {
                kind: SmcErrorKind::Other,
                message: keyed_message("SMC GetKeyInfo for ", key, " returned error: ", reply.result),
            },
        );
    }
    Ok(reply.key_info)
}

/// The parameters of a read of `key`, whose metadata is `info`.
pub fn read_request(key: &[u8; 4], info: &SMCKeyInfoData) -> (p: SmcParams)
    ensures
        p.key as nat == key_code_of(key@),
        p.data8 == K_SMC_READ_KEY,
        p.key_info == *info,
        p.result == 0,
        p.bytes@.len() == SMC_BUFFER,
        forall|i: int| 0 <= i < SMC_BUFFER ==> p.bytes@[i] == 0,
{
    SmcParams {
        key: key_code(key),
        data8: K_SMC_READ_KEY,
        key_info: *info,
        result: 0,
        bytes: zero_buffer(),
    }
}

/// Checks a read reply: the first `data_size` bytes when the SMC reports
/// success and the size fits the buffer.
pub fn read_data_from_reply(key: &[u8; 4], info: &SMCKeyInfoData, reply: &SmcParams) -> (r: Result<
    Vec<u8>,
    SmcError,
>)
    requires
        reply.bytes@.len() == SMC_BUFFER,
    ensures
        reply.result != K_SMC_SUCCESS ==> (r matches Err(e) && e.kind == SmcErrorKind::Other
            && e.message@ == "SMC ReadKey "@ + bytes_debug(key@) + " returned error: "@
            + text::decimal(reply.result as nat)),
        reply.result == K_SMC_SUCCESS && info.data_size > SMC_BUFFER ==> (r matches Err(e) && e.kind
            == SmcErrorKind::InvalidData && e.message@ == "SMC key data size "@ + text::decimal(
            info.data_size as nat,
        ) + " exceeds buffer"@),
        reply.result == K_SMC_SUCCESS && info.data_size <= SMC_BUFFER ==> (r matches Ok(d) && d@
            == reply.bytes@.subrange(0, info.data_size as int)),
{
    if reply.result != K_SMC_SUCCESS {
        return Err(
            SmcError {
                kind: SmcErrorKind::Other,
                message: keyed_message("SMC ReadKey ", key, " returned error: ", reply.result),
            },
        );
    }
    if info.data_size > 32 {
        let mut out: Vec<char> = Vec::new();
        text::push_str(&mut out, "SMC key data size ");
        text::push_decimal(&mut out, info.data_size as u64);
        text::push_str(&mut out, " exceeds buffer");
        return Err(SmcError { kind: SmcErrorKind::InvalidData, message: text::string_of(&out) });
    }
    let size = info.data_size as usize;
    let mut data: Vec<u8> = Vec::new();
    let mut i: usize = 0;
    while i < size
        invariant
            i <= size <= SMC_BUFFER,
            reply.bytes@.len() == SMC_BUFFER,
            data@ == reply.bytes@.subrange(0, i as int),
        decreases size - i,
    {
        data.push(reply.bytes[i]);
        assert(reply.bytes@.subrange(0, i + 1) =~= reply.bytes@.subrange(0, i as int).push(
            reply.bytes@[i as int],
        ));
        i = i + 1;
    }
    Ok(data)
}

/// The parameters of a write of `data` to `key`, whose metadata is `info`:
/// refused when the data does not fit the 32-byte buffer.
pub fn write_request(key: &[u8; 4], info: &SMCKeyInfoData, data: &Vec<u8>) -> (r: Result<
    SmcParams,
    SmcError,
>)
    ensures
        data@.len() > SMC_BUFFER ==> (r matches Err(e) && e.kind == SmcErrorKind::InvalidInput
            && e.message@ == "Data exceeds 32-byte SMC buffer"@),
        data@.len() <= SMC_BUFFER ==> (r matches Ok(p) && p.key as nat == key_code_of(key@) && p.data8
            == K_SMC_WRITE_KEY && p.key_info == *info && p.result == 0 && p.bytes@.len()
            == SMC_BUFFER && p.bytes@.subrange(0, data@.len() as int) == data@ && (forall|i: int|
            data@.len() <= i < SMC_BUFFER ==> p.bytes@[i] == 0)),
{
    if data.len() > 32 {
        return Err(
            SmcError {
                kind: SmcErrorKind::InvalidInput,
                message: String::from_str("Data exceeds 32-byte SMC buffer"),
            },
        );
    }
    let mut bytes: Vec<u8> = Vec::new();
    let mut i: usize = 0;
    while i < SMC_BUFFER
        invariant
            i <= SMC_BUFFER,
            data@.len() <= SMC_BUFFER,
            bytes@.len() == i,
            forall|j: int| 0 <= j < i && j < data@.len() ==> bytes@[j] == data@[j],
            forall|j: int| data@.len() <= j < i ==> bytes@[j] == 0,
        decreases SMC_BUFFER - i,
    {
        if i < data.len() {
            bytes.push(data[i]);
        } else {
            bytes.push(0);
        }
        i = i + 1;
    }
    assert(bytes@.subrange(0, data@.len() as int) =~= data@);
    Ok(
        SmcParams {
            key: key_code(key),
            data8: K_SMC_WRITE_KEY,
            key_info: *info,
            result: 0,
            bytes,
        },
    )
}

/// Checks a write reply.
pub fn write_reply_ok(key: &[u8; 4], reply: &SmcParams) -> (r: Result<(), SmcError>)
    ensures
        reply.result == K_SMC_SUCCESS ==> r is Ok,
        reply.result != K_SMC_SUCCESS ==> (r matches Err(e) && e.kind == SmcErrorKind::Other
            && e.message@ == "SMC WriteKey "@ + bytes_debug(key@) + " returned error: "@
            + text::decimal(reply.result as nat)),
{
    if reply.result != K_SMC_SUCCESS {
        return Err(
            SmcError {
                kind: SmcErrorKind::Other,
                message: keyed_message("SMC WriteKey ", key, " returned error: ", reply.result),
            },
        );
    }
    Ok(())
}

/// A write is confirmed exactly when reading the key back gives the data
/// written.
pub fn verify_written(key: &[u8; 4], data: &Vec<u8>, read_back: &Vec<u8>) -> (r: Result<
    (),
    SmcError,
>)
    ensures
        r is Ok <==> read_back@ == data@,
        r matches Err(e) ==> e.kind == SmcErrorKind::Other && e.message@ == "SMC WriteKey "@
            + bytes_debug(key@) + " verification failed: wrote "@ + bytes_debug(data@)
            + ", read "@ + bytes_debug(read_back@),
{
    let mut same = read_back.len() == data.len();
    let mut i: usize = 0;
    while same && i < data.len()
        invariant
            i <= data.len(),
            same ==> read_back@.len() == data@.len(),
            same ==> forall|j: int| 0 <= j < i ==> read_back@[j] == data@[j],
            !same ==> read_back@ != data@,
        decreases data.len() - i,
    {
        if read_back[i] != data[i] {
            same = false;
        }
        i = i + 1;
    }
    if same {
        assert(read_back@ =~= data@);
        return Ok(());
    }
    let mut out: Vec<char> = Vec::new();
    text::push_str(&mut out, "SMC WriteKey ");
    push_bytes_debug(&mut out, &key_vec(key));
    text::push_str(&mut out, " verification failed: wrote ");
    push_bytes_debug(&mut out, data);
    text::push_str(&mut out, ", read ");
    push_bytes_debug(&mut out, read_back);
    assert(out@ =~= "SMC WriteKey "@ + bytes_debug(key@) + " verification failed: wrote "@
        + bytes_debug(data@) + ", read "@ + bytes_debug(read_back@));
    Err(SmcError { kind: SmcErrorKind::Other, message: text::string_of(&out) })
}

impl SmcHandle {
    /// Wraps the connection the platform opened; off macOS (`None`) the SMC
    /// is unsupported.
    pub fn open(connection: Option<Result<u32, SmcError>>) -> (r: Result<SmcHandle, SmcError>)
        ensures
            connection is None ==> (r matches Err(e) && e.kind == SmcErrorKind::Unsupported
                && e.message@ == "SMC is only available on macOS"@),
            connection matches Some(Ok(c)) ==> (r matches Ok(h) && h.connect == c),
            connection matches Some(Err(e0)) ==> (r matches Err(e) && e.kind == e0.kind
                && e.message@ == e0.message@),
    {
        match connection {
            None => Err(
                SmcError {
                    kind: SmcErrorKind::Unsupported,
                    message: String::from_str("SMC is only available on macOS"),
                },
            ),
            Some(Ok(connect)) => Ok(SmcHandle { connect }),
            Some(Err(e)) => Err(e),
        }
    }

    /// The first call of a metadata query: the request for `key`.
    pub fn get_key_info(&self, key: &[u8; 4]) -> (p: SmcParams)
        ensures
            p.key as nat == key_code_of(key@),
            p.data8 == K_SMC_GET_KEY_INFO,
            p.key_info == (SMCKeyInfoData { data_size: 0, data_type: 0, data_attributes: 0 }),
            p.result == 0,
            p.bytes@.len() == SMC_BUFFER,
            forall|i: int| 0 <= i < SMC_BUFFER ==> p.bytes@[i] == 0,
    {
        key_info_request(key)
    }

    /// The read that follows a successful metadata query of `key`.
    pub fn read_key(&self, key: &[u8; 4], info: &SMCKeyInfoData) -> (p: SmcParams)
        ensures
            p.key as nat == key_code_of(key@),
            p.data8 == K_SMC_READ_KEY,
            p.key_info == *info,
            p.result == 0,
            p.bytes@.len() == SMC_BUFFER,
            forall|i: int| 0 <= i < SMC_BUFFER ==> p.bytes@[i] == 0,
    {
        read_request(key, info)
    }

    /// Starts a write of `data` to `key` that is checked by reading the key
    /// back; `KeyWriter::resume` takes it from there.
    pub fn write_key(&self, key: &[u8; 4], data: &Vec<u8>) -> (r: (KeyWriter, SmcParams))
        ensures
            r.0.key == *key,
            r.0.data@ == data@,
            r.0.stage == WriteStage::AwaitInfo,
            info_request_for(r.1, key@),
    {
        KeyWriter::start(*key, data.clone())
    }
}

// ---------------------------------------------------------------------------
// Writing a key
// ---------------------------------------------------------------------------

/// `p` is the metadata request for `key`.
pub open spec fn info_request_for(p: SmcParams, key: Seq<u8>) -> bool {
    &&& p.key as nat == key_code_of(key)
    &&& p.data8 == K_SMC_GET_KEY_INFO
    &&& p.key_info == (SMCKeyInfoData { data_size: 0, data_type: 0, data_attributes: 0 })
    &&& p.result == 0
    &&& p.bytes@.len() == SMC_BUFFER
    &&& forall|i: int| 0 <= i < SMC_BUFFER ==> p.bytes@[i] == 0
}

/// `p` is the read request for `key` with metadata `info`.
pub open spec fn read_request_for(p: SmcParams, key: Seq<u8>, info: SMCKeyInfoData) -> bool {
    &&& p.key as nat == key_code_of(key)
    &&& p.data8 == K_SMC_READ_KEY
    &&& p.key_info == info
    &&& p.result == 0
    &&& p.bytes@.len() == SMC_BUFFER
    &&& forall|i: int| 0 <= i < SMC_BUFFER ==> p.bytes@[i] == 0
}

/// `p` is the request writing `data` to `key` with metadata `info`.
pub open spec fn write_request_for(p: SmcParams, key: Seq<u8>, info: SMCKeyInfoData, data: Seq<u8>) -> bool {
    &&& p.key as nat == key_code_of(key)
    &&& p.data8 == K_SMC_WRITE_KEY
    &&& p.key_info == info
    &&& p.result == 0
    &&& p.bytes@.len() == SMC_BUFFER
    &&& p.bytes@.subrange(0, data.len() as int) == data
    &&& forall|i: int| data.len() <= i < SMC_BUFFER ==> p.bytes@[i] == 0
}

/// The message of an SMC call on `key` that returned the error `code`.
pub open spec fn call_error_text(call: Seq<char>, key: Seq<u8>, code: u8) -> Seq<char> {
    call + bytes_debug(key) + " returned error: "@ + text::decimal(code as nat)
}

/// `e` is an error of kind `kind` with message `message`.
pub open spec fn is_error(e: SmcError, kind: SmcErrorKind, message: Seq<char>) -> bool {
    e.kind == kind && e.message@ == message
}

/// Where a key write stands: waiting for the key's metadata, for the write,
/// for the metadata before the read-back, for the read-back, or finished.
#[derive(Clone, Copy, Debug, PartialEq, Eq, Structural)]
pub enum WriteStage {
    AwaitInfo,
    AwaitWrite,
    AwaitReadInfo,
    AwaitRead(SMCKeyInfoData),
    Finished,
}

/// A write of `data` to `key`, checked by reading the key back.
pub struct KeyWriter {
    pub key: [u8; 4],
    pub data: Vec<u8>,
    pub stage: WriteStage,
}

/// The next SMC call to make, or the outcome of the write.
#[derive(Debug)]
pub enum KeyStep {
    Call(SmcParams),
    Done(Result<(), SmcError>),
}

impl KeyWriter {
    /// Starts a write: the first call asks for the key's metadata.
    pub fn start(key: [u8; 4], data: Vec<u8>) -> (r: (KeyWriter, SmcParams))
        ensures
            r.0.key == key,
            r.0.data@ == data@,
            r.0.stage == WriteStage::AwaitInfo,
            info_request_for(r.1, key@),
    {
        let first = key_info_request(&key);
        (KeyWriter { key, data, stage: WriteStage::AwaitInfo }, first)
    }

    /// Continues with the reply to the last call. A failed call ends the
    /// write with its error. The metadata reply is followed by the write
    /// (refused when the data exceeds the buffer), an accepted write by a
    /// read of the key, and the read-back ends the write: success exactly
    /// when it gives back the data written.
    pub fn resume(&mut self, reply: Result<SmcParams, SmcError>) -> (step: KeyStep)
        requires
            !(old(self).stage is Finished),
            reply matches Ok(p) ==> p.bytes@.len() == SMC_BUFFER,
        ensures
            final(self).key == old(self).key,
            final(self).data@ == old(self).data@,
            (step is Done) == (final(self).stage is Finished),
            reply matches Err(e) ==> step == KeyStep::Done(Err::<(), SmcError>(e)),
            reply matches Ok(p) ==> match old(self).stage {
                WriteStage::AwaitInfo => if p.result != K_SMC_SUCCESS {
                    step matches KeyStep::Done(Err(e)) && is_error(
                        e,
                        SmcErrorKind::Other,
                        call_error_text("SMC GetKeyInfo for "@, old(self).key@, p.result),
                    )
                } else if old(self).data@.len() > SMC_BUFFER {
                    step matches KeyStep::Done(Err(e)) && is_error(
                        e,
                        SmcErrorKind::InvalidInput,
                        "Data exceeds 32-byte SMC buffer"@,
                    )
                } else {
                    step matches KeyStep::Call(q) && write_request_for(
                        q,
                        old(self).key@,
                        p.key_info,
                        old(self).data@,
                    ) && final(self).stage == WriteStage::AwaitWrite
                },
                WriteStage::AwaitWrite => if p.result != K_SMC_SUCCESS {
                    step matches KeyStep::Done(Err(e)) && is_error(
                        e,
                        SmcErrorKind::Other,
                        call_error_text("SMC WriteKey "@, old(self).key@, p.result),
                    )
                } else {
                    step matches KeyStep::Call(q) && info_request_for(q, old(self).key@)
                        && final(self).stage == WriteStage::AwaitReadInfo
                },
                WriteStage::AwaitReadInfo => if p.result != K_SMC_SUCCESS {
                    step matches KeyStep::Done(Err(e)) && is_error(
                        e,
                        SmcErrorKind::Other,
                        call_error_text("SMC GetKeyInfo for "@, old(self).key@, p.result),
                    )
                } else {
                    step matches KeyStep::Call(q) && read_request_for(q, old(self).key@, p.key_info)
                        && final(self).stage == WriteStage::AwaitRead(p.key_info)
                },
                WriteStage::AwaitRead(info) => if p.result != K_SMC_SUCCESS {
                    step matches KeyStep::Done(Err(e)) && is_error(
                        e,
                        SmcErrorKind::Other,
                        call_error_text("SMC ReadKey "@, old(self).key@, p.result),
                    )
                } else if info.data_size > SMC_BUFFER {
                    step matches KeyStep::Done(Err(e)) && is_error(
                        e,
                        SmcErrorKind::InvalidData,
                        "SMC key data size "@ + text::decimal(info.data_size as nat)
                            + " exceeds buffer"@,
                    )
                } else if p.bytes@.subrange(0, info.data_size as int) == old(self).data@ {
                    step matches KeyStep::Done(Ok(_))
                } else {
                    step matches KeyStep::Done(Err(e)) && is_error(
                        e,
                        SmcErrorKind::Other,
                        "SMC WriteKey "@ + bytes_debug(old(self).key@) + " verification failed: wrote "@
                            + bytes_debug(old(self).data@) + ", read "@ + bytes_debug(
                            p.bytes@.subrange(0, info.data_size as int),
                        ),
                    )
                },
                WriteStage::Finished => false,
            },
            step matches KeyStep::Done(Ok(_)) ==> (old(self).stage matches WriteStage::AwaitRead(info)
                && reply matches Ok(p) && p.bytes@.subrange(0, info.data_size as int)
                == old(self).data@),
    {
        let p = match reply {
            Err(e) => {
                self.stage = WriteStage::Finished;
                return KeyStep::Done(Err(e));
            },
            Ok(p) => p,
        };
        match self.stage {
            WriteStage::AwaitInfo => match key_info_from_reply(&self.key, &p) {
                Err(e) => {
                    self.stage = WriteStage::Finished;
                    KeyStep::Done(Err(e))
                },
                Ok(info) => match write_request(&self.key, &info, &self.data) {
                    Err(e) => {
                        self.stage = WriteStage::Finished;
                        KeyStep::Done(Err(e))
                    },
                    Ok(q) => {
                        self.stage = WriteStage::AwaitWrite;
                        KeyStep::Call(q)
                    },
                },
            },
            WriteStage::AwaitWrite => match write_reply_ok(&self.key, &p) {
                Err(e) => {
                    self.stage = WriteStage::Finished;
                    KeyStep::Done(Err(e))
                },
                Ok(()) => {
                    self.stage = WriteStage::AwaitReadInfo;
                    KeyStep::Call(key_info_request(&self.key))
                },
            },
            WriteStage::AwaitReadInfo => match key_info_from_reply(&self.key, &p) {
                Err(e) => {
                    self.stage = WriteStage::Finished;
                    KeyStep::Done(Err(e))
                },
                Ok(info) => {
                    self.stage = WriteStage::AwaitRead(info);
                    KeyStep::Call(read_request(&self.key, &info))
                },
            },
            WriteStage::AwaitRead(info) => {
                self.stage = WriteStage::Finished;
                match read_data_from_reply(&self.key, &info, &p) {
                    Err(e) => KeyStep::Done(Err(e)),
                    Ok(back) => KeyStep::Done(verify_written(&self.key, &self.data, &back)),
                }
            },
            WriteStage::Finished => {
                KeyStep::Done(Ok(()))
            },
        }
    }
}

// ---------------------------------------------------------------------------
// Battery keys
// ---------------------------------------------------------------------------

/// Charging control (ui32, 4 bytes).
pub const CHTE: [u8; 4] = [0x43, 0x48, 0x54, 0x45];

/// Charging control, older firmware (hex_, 1 byte).
pub const CH0C: [u8; 4] = [0x43, 0x48, 0x30, 0x43];

/// Power adapter control (hex_, 1 byte).
pub const CHIE: [u8; 4] = [0x43, 0x48, 0x49, 0x45];

/// Power adapter control, older firmware (ui8, 1 byte).
pub const CH0J: [u8; 4] = [0x43, 0x48, 0x30, 0x4a];

/// MagSafe LED (ui8, 1 byte).
pub const ACLC: [u8; 4] = [0x41, 0x43, 0x4c, 0x43];

/// The keys that control charging and the adapter on this machine.
#[derive(Clone, Copy, Debug)]
pub struct SupportedKeys {
    pub charge_key: &'static str,
    pub adapter_key: &'static str,
}

/// The next step of probing: ask whether a key exists, or the result.
pub enum ProbeStep {
    Ask([u8; 4]),
    Done(Result<SupportedKeys, SmcError>),
}

/// The probing protocol, given the answers so far (`true`: the key's
/// metadata could be read). Charging keys are tried in the order CHTE, CH0C
/// and adapter keys in the order CHIE, CH0J; the first that answers wins.
pub open spec fn probe_plan(answers: Seq<bool>) -> (int, Option<bool>)
    // (index of the key to ask next in [CHTE, CH0C, CHIE, CH0J], or -1 when
    // done; when done, whether a full set of keys was found)
{
    let n = answers.len();
    if n == 0 {
        (0, None)
    } else if !answers[0] && n == 1 {
        (1, None)
    } else if !answers[0] && !answers[1] {
        (-1, Some(false))
    } else {
        let m = if answers[0] { 1int } else { 2int };
        if n == m {
            (2, None)
        } else if answers[m] {
            (-1, Some(true))
        } else if n == m + 1 {
            (3, None)
        } else {
            (-1, Some(answers[m + 1]))
        }
    }
}

/// The key at a probing index.
pub open spec fn probe_key(i: int) -> Seq<u8> {
    if i == 0 {
        CHTE@
    } else if i == 1 {
        CH0C@
    } else if i == 2 {
        CHIE@
    } else {
        CH0J@
    }
}

/// Probes the SMC for the charging and adapter keys. Each call gets the
/// answers to the questions asked so far and returns the next question or
/// the result.
pub fn probe_supported(answers: &Vec<bool>) -> (r: ProbeStep)
    requires
        answers@.len() <= 4,
    ensures
        match r {
            ProbeStep::Ask(k) => probe_plan(answers@).0 >= 0 && k@ == probe_key(probe_plan(answers@).0),
            ProbeStep::Done(Ok(keys)) => probe_plan(answers@) == (-1int, Some(true))
                && keys.charge_key@ == (if answers@[0] { "CHTE"@ } else { "CH0C"@ })
                && keys.adapter_key@ == (if answers@[if answers@[0] { 1int } else { 2int }] {
                    "CHIE"@
                } else {
                    "CH0J"@
                }),
            ProbeStep::Done(Err(e)) => probe_plan(answers@).1 == Some(false) && e.kind
                == SmcErrorKind::Unsupported && e.message@ == (if !answers@[0] && !answers@[1] {
                    "No supported charging key found"@
                } else {
                    "No supported adapter key found"@
                }),
        },
{
    let n = answers.len();
    if n == 0 {
        return ProbeStep::Ask(CHTE);
    }
    if !answers[0] && n == 1 {
        return ProbeStep::Ask(CH0C);
    }
    if !answers[0] && !answers[1] {
        return ProbeStep::Done(
            Err(
                SmcError {
                    kind: SmcErrorKind::Unsupported,
                    message: String::from_str("No supported charging key found"),
                },
            ),
        );
    }
    let m: usize = if answers[0] { 1 } else { 2 };
    let charge_key: &'static str = if answers[0] { "CHTE" } else { "CH0C" };
    if n == m {
        return ProbeStep::Ask(CHIE);
    }
    if answers[m] {
        return ProbeStep::Done(Ok(SupportedKeys { charge_key, adapter_key: "CHIE" }));
    }
    if n == m + 1 {
        return ProbeStep::Ask(CH0J);
    }
    if answers[m + 1] {
        ProbeStep::Done(Ok(SupportedKeys { charge_key, adapter_key: "CH0J" }))
    } else {
        ProbeStep::Done(
            Err(
                SmcError {
                    kind: SmcErrorKind::Unsupported,
                    message: String::from_str("No supported adapter key found"),
                },
            ),
        )
    }
}

/// A write of `data` to `key`.
pub struct KeyWrite {
    pub key: [u8; 4],
    pub data: Vec<u8>,
}

/// The next step of a write with a fallback key.
pub enum WriteStep {
    Write(KeyWrite),
    Done(Result<(), SmcError>),
}

/// A write to `primary` that, when it fails, is retried on `fallback`;
/// `outcomes` holds the results of the writes made so far.
fn write_with_fallback(
    primary: [u8; 4],
    primary_data: Vec<u8>,
    fallback: [u8; 4],
    fallback_data: Vec<u8>,
    outcomes: &Vec<Result<(), SmcError>>,
) -> (r: WriteStep)
    requires
        outcomes@.len() <= 2,
    ensures
        outcomes@.len() == 0 ==> (r matches WriteStep::Write(w) && w.key == primary && w.data@
            == primary_data@),
        outcomes@.len() >= 1 && outcomes@[0] is Ok ==> (r matches WriteStep::Done(Ok(()))),
        outcomes@.len() == 1 && outcomes@[0] is Err ==> (r matches WriteStep::Write(w) && w.key
            == fallback && w.data@ == fallback_data@),
        outcomes@.len() == 2 && outcomes@[0] is Err ==> (r matches WriteStep::Done(res) && (res is Ok
            <==> outcomes@[1] is Ok) && (outcomes@[1] matches Err(e1) ==> res matches Err(e) && e.kind
            == e1.kind && e.message@ == e1.message@)),
{
    if outcomes.len() == 0 {
        return WriteStep::Write(KeyWrite { key: primary, data: primary_data });
    }
    if outcomes[0].is_ok() {
        return WriteStep::Done(Ok(()));
    }
    if outcomes.len() == 1 {
        return WriteStep::Write(KeyWrite { key: fallback, data: fallback_data });
    }
    match &outcomes[1] {
        Ok(()) => WriteStep::Done(Ok(())),
        Err(e) => WriteStep::Done(Err(e.copy())),
    }
}

/// Stops charging: CHTE = 01 00 00 00, or CH0C = 01 when CHTE fails.
pub fn disable_charging(outcomes: &Vec<Result<(), SmcError>>) -> (r: WriteStep)
    requires
        outcomes@.len() <= 2,
    ensures
        outcomes@.len() == 0 ==> (r matches WriteStep::Write(w) && w.key == CHTE && w.data@ == seq![
            1u8,
            0u8,
            0u8,
            0u8,
        ]),
        outcomes@.len() == 1 && outcomes@[0] is Err ==> (r matches WriteStep::Write(w) && w.key
            == CH0C && w.data@ == seq![1u8]),
        outcomes@.len() >= 1 && outcomes@[0] is Ok ==> (r matches WriteStep::Done(Ok(()))),
        outcomes@.len() == 2 && outcomes@[0] is Err ==> (r matches WriteStep::Done(res) && (res is Ok
            <==> outcomes@[1] is Ok) && (outcomes@[1] matches Err(e1) ==> res matches Err(e) && e.kind
            == e1.kind && e.message@ == e1.message@)),
{
    write_with_fallback(CHTE, vec![1u8, 0, 0, 0], CH0C, vec![1u8], outcomes)
}

/// Resumes charging: CHTE = 00 00 00 00, or CH0C = 00 when CHTE fails.
pub fn enable_charging(outcomes: &Vec<Result<(), SmcError>>) -> (r: WriteStep)
    requires
        outcomes@.len() <= 2,
    ensures
        outcomes@.len() == 0 ==> (r matches WriteStep::Write(w) && w.key == CHTE && w.data@ == seq![
            0u8,
            0u8,
            0u8,
            0u8,
        ]),
        outcomes@.len() == 1 && outcomes@[0] is Err ==> (r matches WriteStep::Write(w) && w.key
            == CH0C && w.data@ == seq![0u8]),
        outcomes@.len() >= 1 && outcomes@[0] is Ok ==> (r matches WriteStep::Done(Ok(()))),
        outcomes@.len() == 2 && outcomes@[0] is Err ==> (r matches WriteStep::Done(res) && (res is Ok
            <==> outcomes@[1] is Ok) && (outcomes@[1] matches Err(e1) ==> res matches Err(e) && e.kind
            == e1.kind && e.message@ == e1.message@)),
{
    write_with_fallback(CHTE, vec![0u8, 0, 0, 0], CH0C, vec![0u8], outcomes)
}

/// Cuts the power adapter: CHIE = 08, or CH0J = 20 when CHIE fails.
pub fn disable_adapter(outcomes: &Vec<Result<(), SmcError>>) -> (r: WriteStep)
    requires
        outcomes@.len() <= 2,
    ensures
        outcomes@.len() == 0 ==> (r matches WriteStep::Write(w) && w.key == CHIE && w.data@ == seq![
            0x08u8,
        ]),
        outcomes@.len() == 1 && outcomes@[0] is Err ==> (r matches WriteStep::Write(w) && w.key
            == CH0J && w.data@ == seq![0x20u8]),
        outcomes@.len() >= 1 && outcomes@[0] is Ok ==> (r matches WriteStep::Done(Ok(()))),
        outcomes@.len() == 2 && outcomes@[0] is Err ==> (r matches WriteStep::Done(res) && (res is Ok
            <==> outcomes@[1] is Ok) && (outcomes@[1] matches Err(e1) ==> res matches Err(e) && e.kind
            == e1.kind && e.message@ == e1.message@)),
{
    write_with_fallback(CHIE, vec![0x08u8], CH0J, vec![0x20u8], outcomes)
}

/// Restores the power adapter: CHIE = 00, or CH0J = 00 when CHIE fails.
pub fn enable_adapter(outcomes: &Vec<Result<(), SmcError>>) -> (r: WriteStep)
    requires
        outcomes@.len() <= 2,
    ensures
        outcomes@.len() == 0 ==> (r matches WriteStep::Write(w) && w.key == CHIE && w.data@ == seq![
            0u8,
        ]),
        outcomes@.len() == 1 && outcomes@[0] is Err ==> (r matches WriteStep::Write(w) && w.key
            == CH0J && w.data@ == seq![0u8]),
        outcomes@.len() >= 1 && outcomes@[0] is Ok ==> (r matches WriteStep::Done(Ok(()))),
        outcomes@.len() == 2 && outcomes@[0] is Err ==> (r matches WriteStep::Done(res) && (res is Ok
            <==> outcomes@[1] is Ok) && (outcomes@[1] matches Err(e1) ==> res matches Err(e) && e.kind
            == e1.kind && e.message@ == e1.message@)),
{
    write_with_fallback(CHIE, vec![0u8], CH0J, vec![0u8], outcomes)
}

/// Sets the MagSafe LED: 0x00 system controlled, 0x01 off, 0x03 green,
/// 0x04 orange.
pub fn set_magsafe_led(value: u8) -> (w: KeyWrite)
    ensures
        w.key == ACLC,
        w.data@ == seq![value],
{
    KeyWrite { key: ACLC, data: vec![value] }
}

} // verus!
