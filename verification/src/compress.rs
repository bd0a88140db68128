//! Log compression through the `flate2` crate.
use vstd::prelude::*;

verus! {

/// Compresses the plain build log into the bytes of its `.log.gz` sibling.
/// Relies on `flate2::write::GzEncoder` at the highest compression level;
/// nothing is stated of the produced bytes (the gzip header is
/// platform-dependent), and `None` reports an encoder failure.
#[verifier::external_body]
pub(crate) fn gzip_bytes(data: &[u8]) -> (r: Option<Vec<u8>>) {
    let mut encoder = flate2::write::GzEncoder::new(Vec::new(), flate2::Compression::new(9));
    match std::io::Write::write_all(&mut encoder, data) {
        Ok(()) => match encoder.finish() {
            Ok(v) => Some(v),
            Err(_) => None,
        },
        Err(_) => None,
    }
}

} // verus!
