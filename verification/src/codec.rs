use vstd::prelude::*;

use crate::error::Error;
use crate::handle::IndexHandle;
use crate::io_flags::IoFlags;
use crate::path::has_nul;
use crate::path::native_path_of;
use crate::path::to_native_path;

verus! {

/// Result wrapper: reads the status code a boundary call returned. Zero is
/// the boundary's success sentinel; any other code fails, carrying the code
/// verbatim together with the boundary's own description of it. This is also
/// the whole completion of a write, which returns nothing on success.
pub fn check_status(code: i32, message: String) -> (r: Result<(), Error>)
    ensures
        r is Ok <==> code == 0,
        r matches Err(e) ==> e == (Error::Native { code: code, message: message }),
{
    if code == 0 {
        Ok(())
    } else {
        Err(Error::Native { code, message })
    }
}

/// What the file codec hands the boundary for a read: the NUL-terminated
/// path and the integer flag code. Fails, before anything is called, exactly
/// when the path text holds a NUL byte; the flags only pick the boundary's
/// load strategy and pass through unchanged, whichever they are.
pub fn prepare_read(path: &[u8], flags: IoFlags) -> (r: Result<(Vec<u8>, i32), Error>)
    ensures
        r is Ok <==> !has_nul(path@),
        r matches Ok(p) ==> p.0@ == native_path_of(path@) && p.1 == flags.bits() as i32,
        r matches Err(e) ==> e is BadFilePath,
{
    let native = match to_native_path(path) {
        Ok(p) => p,
        Err(e) => {
            return Err(e);
        },
    };
    Ok((native, flags.to_code()))
}

/// Completion of a read or of a deserialize. On the success status the
/// identity the boundary wrote into its out-parameter — never null then — is
/// wrapped into a fresh, solely owning handle; on any other status, the
/// structured error and no handle, whatever flags the read was given.
pub fn finish_read(code: i32, message: String, raw: usize) -> (r: Result<IndexHandle, Error>)
    requires
        code == 0 ==> raw != 0,
    ensures
        r is Ok <==> code == 0,
        r matches Ok(h) ==> h.id() == raw && h.wf(),
        r matches Err(e) ==> e == (Error::Native { code: code, message: message }),
{
    match check_status(code, message) {
        Ok(()) => Ok(IndexHandle::wrap_handle(raw)),
        Err(e) => Err(e),
    }
}

/// Completion of a serialize. `bytes` is the persisted form already copied
/// out of the boundary's own buffer — exactly the byte count it reported. On
/// the success status the owned buffer is handed back unchanged; on any
/// other status, the structured error and no buffer.
pub fn finish_serialize(code: i32, message: String, bytes: Vec<u8>) -> (r: Result<Vec<u8>, Error>)
    ensures
        r is Ok <==> code == 0,
        r matches Ok(b) ==> b@ == bytes@,
        r matches Err(e) ==> e == (Error::Native { code: code, message: message }),
{
    match check_status(code, message) {
        Ok(()) => Ok(bytes),
        Err(e) => Err(e),
    }
}

} // verus!
