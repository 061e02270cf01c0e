//! A container for secret bytes that clears its memory when it goes away.

use vstd::prelude::*;

verus! {

/// Secret bytes, owned by a `zeroize::Zeroizing` buffer that wipes them when
/// the box is dropped. The type has no `Debug`, `Display` or `==`: a secret
/// is only reachable through [`SecretBox::as_secret`].
#[verifier::external_body]
pub struct SecretBox {
    inner: zeroize::Zeroizing<Vec<u8>>,
}

/// The bytes that a box holds.
pub uninterp spec fn secret_contents(boxed: SecretBox) -> Seq<u8>;

/// Calls `zeroize::Zeroizing::new`, which takes ownership of the buffer as
/// it is.
#[verifier::external_body]
fn zeroizing_wrap(bytes: Vec<u8>) -> (boxed: SecretBox)
    ensures
        secret_contents(boxed) == bytes@,
{
    SecretBox { inner: zeroize::Zeroizing::new(bytes) }
}

/// Calls `Deref::deref` of `zeroize::Zeroizing`, which lends the buffer it
/// owns.
#[verifier::external_body]
fn zeroizing_expose(boxed: &SecretBox) -> (bytes: &[u8])
    ensures
        bytes@ == secret_contents(*boxed),
{
    boxed.inner.as_slice()
}

impl View for SecretBox {
    type V = Seq<u8>;

    open spec fn view(&self) -> Seq<u8> {
        secret_contents(*self)
    }
}

impl SecretBox {
    /// Moves `bytes` into a box.
    pub fn new(bytes: Vec<u8>) -> (boxed: SecretBox)
        ensures
            boxed@ == bytes@,
    {
        zeroizing_wrap(bytes)
    }

    /// Lends the secret.
    pub fn as_secret(&self) -> (bytes: &[u8])
        ensures
            bytes@ == self@,
    {
        zeroizing_expose(self)
    }
}

} // verus!
