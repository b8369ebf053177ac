use std::collections::hash_map::DefaultHasher;
use std::hash::Hasher;

use base64ct::{Base64, Encoding};
use vstd::prelude::*;
use vstd::std_specs::hash::DefaultHasherAdditionalSpecFns;
use vstd::utf8::encode_utf8;

use crate::error::{CotyledonError, SignatureError};
use crate::plants::Plant;

verus! {

/// A span of time in whole seconds.
#[derive(Debug, Clone, Copy, PartialEq, Eq, Structural)]
pub struct SimpleDuration(pub u64);

impl SimpleDuration {
    pub fn as_secs(&self) -> (r: u64)
        ensures
            r == self.0,
    {
        self.0
    }
}

/// The plants of one garden, in the order they were sown.
#[derive(Debug, Clone)]
pub struct Plot {
    pub plants: Vec<Plant>,
}

impl Plot {
    pub fn new() -> (r: Self)
        ensures
            r.plants@.len() == 0,
    {
        Plot { plants: Vec::new() }
    }

    pub fn get_plants(&self) -> (r: &[Plant])
        ensures
            r@ == self.plants@,
    {
        self.plants.as_slice()
    }

    pub fn get_mut_plants(&mut self) -> (r: &mut Vec<Plant>)
        ensures
            *r == old(self).plants,
            final(self).plants == *final(r),
    {
        &mut self.plants
    }
}

/// A garden as the client holds it: the plot and the signature this server
/// gave it, if any.
#[derive(Debug, Clone)]
pub struct NatureApproved {
    pub nature_approved: Option<String>,
    pub plot: Plot,
}

/// What Base64 text the standard padded alphabet gives for some bytes.
pub uninterp spec fn base64_text(b: Seq<u8>) -> Seq<char>;

/// What bytes some text decodes to under the standard padded Base64 alphabet,
/// or None where it is no such text.
pub uninterp spec fn base64_bytes(s: Seq<char>) -> Option<Seq<u8>>;

#[verifier::external_type_specification]
#[verifier::external_body]
pub struct ExBase64Error(base64ct::Error);

/// Relies on base64ct's `Base64::encode_string`: the padded Base64 text of the
/// bytes, which `Base64::decode_vec` turns back into the same bytes. It panics on
/// inputs longer than a quarter of `usize::MAX`.
#[verifier::external_body]
fn encode_base64(b: &[u8]) -> (r: String)
    requires
        b@.len() <= usize::MAX / 4,
    ensures
        r@ == base64_text(b@),
        base64_bytes(r@) == Some(b@),
{
    Base64::encode_string(b)
}

/// Relies on base64ct's `Base64::decode_vec`: the bytes that padded Base64 text
/// stands for, or an error where the text is not Base64.
#[verifier::external_body]
fn decode_base64(s: &str) -> (r: Result<Vec<u8>, base64ct::Error>)
    ensures
        match r {
            Ok(v) => base64_bytes(s@) == Some(v@),
            Err(_) => base64_bytes(s@) is None,
        },
{
    Base64::decode_vec(s)
}

/// The bytes of `x`, most significant first, `n` of them.
pub open spec fn be_bytes(x: nat, n: nat) -> Seq<u8>
    decreases n,
{
    if n == 0 {
        Seq::empty()
    } else {
        be_bytes(x / 256, (n - 1) as nat).push((x % 256) as u8)
    }
}

/// A piece of text as the hasher takes it: its byte length, then its UTF-8 bytes.
pub open spec fn text_writes(s: Seq<char>) -> Seq<Seq<u8>> {
    seq![be_bytes(encode_utf8(s).len(), 8), encode_utf8(s)]
}

/// The plants as the hasher takes them, each its type and then its planting time.
pub open spec fn plant_writes(plants: Seq<Plant>) -> Seq<Seq<u8>>
    decreases plants.len(),
{
    if plants.len() == 0 {
        Seq::empty()
    } else {
        plant_writes(plants.drop_last()) + text_writes(plants.last().plant_type@) + seq![
            be_bytes(plants.last().planted.0 as nat, 8),
        ]
    }
}

/// The canonical input of the plot hash: the number of plants, the plants in
/// order, and the secret.
pub open spec fn plot_writes(plants: Seq<Plant>, secret: Seq<char>) -> Seq<Seq<u8>> {
    seq![be_bytes(plants.len(), 8)] + plant_writes(plants) + text_writes(secret)
}

/// The hash of a plot under a secret.
pub open spec fn plot_hash(plants: Seq<Plant>, secret: Seq<char>) -> u64 {
    DefaultHasher::spec_finish(plot_writes(plants, secret))
}

/// The signature text of a plot under a secret.
pub open spec fn signature_text(plants: Seq<Plant>, secret: Seq<char>) -> Seq<char> {
    base64_text(be_bytes(plot_hash(plants, secret) as nat, 8))
}

/// The integer that a signature text carries, where it is the Base64 text of
/// eight bytes.
pub open spec fn decoded_signature(s: Seq<char>) -> Option<u64> {
    match base64_bytes(s) {
        Some(b) => if b.len() == 8 {
            Some(be_value(b) as u64)
        } else {
            None
        },
        None => None,
    }
}

/// The outcome of checking a signature field against a plot and a secret.
pub open spec fn signature_check(
    signature: Option<String>,
    plants: Seq<Plant>,
    secret: Seq<char>,
) -> Result<(), SignatureError> {
    match signature {
        None => Err(SignatureError::NotFound),
        Some(s) => match decoded_signature(s@) {
            None => Err(SignatureError::Malformed),
            Some(v) => if v == plot_hash(plants, secret) {
                Ok(())
            } else {
                Err(SignatureError::Mismatch)
            },
        },
    }
}

/// The garden carries the signature of its plot under the secret, in a form that
/// decodes back to the plot hash.
pub open spec fn is_signed_with(g: NatureApproved, secret: Seq<char>) -> bool {
    &&& g.nature_approved is Some
    &&& g.nature_approved->Some_0@ == signature_text(g.plot.plants@, secret)
    &&& base64_bytes(g.nature_approved->Some_0@) == Some(
        be_bytes(plot_hash(g.plot.plants@, secret) as nat, 8),
    )
}

/// Feeds a piece of text to the hasher as `text_writes` lays it out.
fn write_text(h: &mut DefaultHasher, s: &str)
    ensures
        final(h)@ == old(h)@ + text_writes(s@),
{
    let b = s.as_bytes();
    let len = u64_to_be_bytes(b.len() as u64);
    h.write(len.as_slice());
    h.write(b);
    assert(final(h)@ =~= old(h)@ + text_writes(s@));
}

impl NatureApproved {
    /// A fresh garden: an empty plot and no signature.
    pub fn new() -> (r: Self)
        ensures
            r.nature_approved is None,
            r.plot.plants@.len() == 0,
    {
        let plot = Plot::new();
        NatureApproved { nature_approved: None, plot }
    }

    pub fn get_plot(&self) -> (r: &Plot)
        ensures
            *r == self.plot,
    {
        &self.plot
    }

    pub fn get_mut_plot(&mut self) -> (r: &mut Plot)
        ensures
            *r == old(self).plot,
            final(self).plot == *final(r),
            final(self).nature_approved == old(self).nature_approved,
    {
        &mut self.plot
    }

    /// The hash of this garden's plot under the secret.
    pub fn get_plot_hash(&self, secret: &str) -> (r: u64)
        ensures
            r == plot_hash(self.plot.plants@, secret@),
    {
        let plants = &self.plot.plants;
        let mut hasher = DefaultHasher::new();
        let count = u64_to_be_bytes(plants.len() as u64);
        hasher.write(count.as_slice());
        let mut i: usize = 0;
        while i < plants.len()
            invariant
                i <= plants@.len(),
                hasher@ == seq![be_bytes(plants@.len(), 8)] + plant_writes(plants@.take(i as int)),
            decreases plants@.len() - i,
        {
            let p = &plants[i];
            write_text(&mut hasher, p.plant_type.as_str());
            let planted = u64_to_be_bytes(p.planted.as_secs());
            hasher.write(planted.as_slice());
            proof {
                let t = plants@.take(i + 1);
                assert(t.drop_last() =~= plants@.take(i as int));
            }
            i = i + 1;
        }
        assert(plants@.take(i as int) =~= plants@);
        write_text(&mut hasher, secret);
        assert(hasher@ =~= plot_writes(plants@, secret@));
        hasher.finish()
    }

    /// The signature carried by this garden, as an integer.
    fn get_signature(&self) -> (r: Result<u64, CotyledonError>)
        ensures
            match self.nature_approved {
                None => r == Err::<u64, CotyledonError>(
                    CotyledonError::InvalidSignature(SignatureError::NotFound),
                ),
                Some(s) => match decoded_signature(s@) {
                    None => r == Err::<u64, CotyledonError>(
                        CotyledonError::InvalidSignature(SignatureError::Malformed),
                    ),
                    Some(v) => r == Ok::<u64, CotyledonError>(v),
                },
            },
    {
        match &self.nature_approved {
            Some(raw) => {
                let bytes = match decode_base64(raw.as_str()) {
                    Ok(v) => v,
                    Err(_) => {
                        return Err(CotyledonError::InvalidSignature(SignatureError::Malformed));
                    },
                };
                if bytes.len() != 8 {
                    return Err(CotyledonError::InvalidSignature(SignatureError::Malformed));
                }
                Ok(u64_from_be_bytes(bytes.as_slice()))
            },
            None => Err(CotyledonError::InvalidSignature(SignatureError::NotFound)),
        }
    }

    /// Checks that the signature this garden carries is the one of its plot
    /// under the secret.
    pub fn is_honest(&self, secret: &str) -> (r: Result<(), CotyledonError>)
        ensures
            match signature_check(self.nature_approved, self.plot.plants@, secret@) {
                Ok(()) => r is Ok,
                Err(e) => r == Err::<(), CotyledonError>(CotyledonError::InvalidSignature(e)),
            },
    {
        let plot_hash = self.get_plot_hash(secret);
        let expected_hash = match self.get_signature() {
            Ok(v) => v,
            Err(e) => return Err(e),
        };
        if expected_hash != plot_hash {
            return Err(CotyledonError::InvalidSignature(SignatureError::Mismatch));
        }
        Ok(())
    }

    /// Attaches the signature of the current plot under the secret.
    pub fn sign(&mut self, secret: &str)
        ensures
            final(self).plot == old(self).plot,
            is_signed_with(*final(self), secret@),
    {
        let signature = self.get_plot_hash(secret);
        let bytes = u64_to_be_bytes(signature);
        self.nature_approved = Some(encode_base64(bytes.as_slice()));
    }
}


/// The unsigned integer that a byte sequence spells out, most significant byte first.
pub open spec fn be_value(b: Seq<u8>) -> nat
    decreases b.len(),
{
    if b.len() == 0 {
        0
    } else {
        be_value(b.drop_last()) * 256 + b.last() as nat
    }
}

/// The eight bytes of `x`, most significant first.
pub fn u64_to_be_bytes(x: u64) -> (r: Vec<u8>)
    ensures
        r@.len() == 8,
        r@ == be_bytes(x as nat, 8),
        be_value(r@) == x as nat,
{
    let b7 = (x % 256) as u8;
    let x1 = x / 256;
    let b6 = (x1 % 256) as u8;
    let x2 = x1 / 256;
    let b5 = (x2 % 256) as u8;
    let x3 = x2 / 256;
    let b4 = (x3 % 256) as u8;
    let x4 = x3 / 256;
    let b3 = (x4 % 256) as u8;
    let x5 = x4 / 256;
    let b2 = (x5 % 256) as u8;
    let x6 = x5 / 256;
    let b1 = (x6 % 256) as u8;
    let x7 = x6 / 256;
    let b0 = (x7 % 256) as u8;
    let r = vec![b0, b1, b2, b3, b4, b5, b6, b7];
    proof {
        reveal_with_fuel(be_value, 9);
        reveal_with_fuel(be_bytes, 9);
        assert(r@ =~= be_bytes(x as nat, 8));
        assert(r@.drop_last() =~= seq![b0, b1, b2, b3, b4, b5, b6]);
        assert(r@.drop_last().drop_last() =~= seq![b0, b1, b2, b3, b4, b5]);
        assert(seq![b0, b1, b2, b3, b4, b5].drop_last() =~= seq![b0, b1, b2, b3, b4]);
        assert(seq![b0, b1, b2, b3, b4].drop_last() =~= seq![b0, b1, b2, b3]);
        assert(seq![b0, b1, b2, b3].drop_last() =~= seq![b0, b1, b2]);
        assert(seq![b0, b1, b2].drop_last() =~= seq![b0, b1]);
        assert(seq![b0, b1].drop_last() =~= seq![b0]);
        assert(seq![b0].drop_last() =~= Seq::<u8>::empty());
    }
    r
}

/// The integer that eight bytes spell out, most significant first.
pub fn u64_from_be_bytes(b: &[u8]) -> (r: u64)
    requires
        b@.len() == 8,
    ensures
        r as nat == be_value(b@),
{
    let r = ((((((b[0] as u64 * 256 + b[1] as u64) * 256 + b[2] as u64) * 256 + b[3] as u64)
        * 256 + b[4] as u64) * 256 + b[5] as u64) * 256 + b[6] as u64) * 256 + b[7] as u64;
    proof {
        reveal_with_fuel(be_value, 9);
        let s = b@;
        assert(s =~= seq![s[0], s[1], s[2], s[3], s[4], s[5], s[6], s[7]]);
        assert(s.drop_last() =~= seq![s[0], s[1], s[2], s[3], s[4], s[5], s[6]]);
        assert(s.drop_last().drop_last() =~= seq![s[0], s[1], s[2], s[3], s[4], s[5]]);
        assert(seq![s[0], s[1], s[2], s[3], s[4], s[5]].drop_last() =~= seq![s[0], s[1], s[2], s[3], s[4]]);
        assert(seq![s[0], s[1], s[2], s[3], s[4]].drop_last() =~= seq![s[0], s[1], s[2], s[3]]);
        assert(seq![s[0], s[1], s[2], s[3]].drop_last() =~= seq![s[0], s[1], s[2]]);
        assert(seq![s[0], s[1], s[2]].drop_last() =~= seq![s[0], s[1]]);
        assert(seq![s[0], s[1]].drop_last() =~= seq![s[0]]);
        assert(seq![s[0]].drop_last() =~= Seq::<u8>::empty());
    }
    r
}

} // verus!
