use vstd::prelude::*;

use crate::error::{CotyledonError, SignatureError};
use vstd::utf8::{encode_utf8, encode_utf8_decode_utf8};

use crate::infra::{
    be_bytes, be_value, is_signed_with, plant_writes, plot_hash, plot_writes, signature_check,
    NatureApproved,
};
use crate::plants::{catalog_grow_time, invalid_type_message, Plant};

verus! {

/// Whether a submitted garden may be worked on: an empty plot has nothing to
/// forge and is let through whatever its signature field holds; any other plot
/// must carry its own signature.
pub open spec fn admission(g: NatureApproved, secret: Seq<char>) -> Result<(), SignatureError> {
    if g.plot.plants@.len() == 0 {
        Ok(())
    } else {
        signature_check(g.nature_approved, g.plot.plants@, secret)
    }
}

/// `after` is `before` with one more plant of the given type at the end.
pub open spec fn sown_one(before: NatureApproved, after: NatureApproved, plant_type: Seq<char>) -> bool {
    &&& after.plot.plants@.len() == before.plot.plants@.len() + 1
    &&& after.plot.plants@.drop_last() == before.plot.plants@
    &&& after.plot.plants@.last().plant_type@ == plant_type
}

impl NatureApproved {
    /// Appends a plant to the plot, leaving the signature field as it was.
    pub fn sow(&mut self, plant: Plant)
        ensures
            final(self).plot.plants@ == old(self).plot.plants@.push(plant),
            final(self).nature_approved == old(self).nature_approved,
    {
        self.get_mut_plot().get_mut_plants().push(plant);
    }
}

/// Checks a submitted garden as `admission` says.
fn check_admission(garden: &NatureApproved, secret: &str) -> (r: Result<(), CotyledonError>)
    ensures
        match admission(*garden, secret@) {
            Ok(()) => r is Ok,
            Err(e) => r == Err::<(), CotyledonError>(CotyledonError::InvalidSignature(e)),
        },
{
    if garden.get_plot().get_plants().len() == 0 {
        Ok(())
    } else {
        garden.is_honest(secret)
    }
}

/// Sows a plant into a submitted garden at the given time: checks the garden,
/// appends the plant and signs the result.
pub fn sow_plant_at(garden: NatureApproved, plant_type: String, secret: &str, now: u64) -> (r:
    Result<NatureApproved, CotyledonError>)
    ensures
        match admission(garden, secret@) {
            Err(e) => r == Err::<NatureApproved, CotyledonError>(
                CotyledonError::InvalidSignature(e),
            ),
            Ok(()) => match catalog_grow_time(plant_type@) {
                None => r is Err && r->Err_0 is InvalidPlantType && r->Err_0->InvalidPlantType_0@
                    == invalid_type_message(plant_type@),
                Some(_) => r is Ok && sown_one(garden, r->Ok_0, plant_type@)
                    && r->Ok_0.plot.plants@.last().planted.0 == now && is_signed_with(
                    r->Ok_0,
                    secret@,
                ),
            },
        },
{
    let ghost before = garden;
    let mut garden = garden;
    match check_admission(&garden, secret) {
        Ok(()) => {},
        Err(e) => return Err(e),
    }
    let plant = match Plant::new_at(plant_type, now) {
        Ok(p) => p,
        Err(e) => return Err(e),
    };
    garden.sow(plant);
    garden.sign(secret);
    assert(garden.plot.plants@.drop_last() =~= before.plot.plants@);
    Ok(garden)
}

/// Sows a plant into a submitted garden now, by the system clock: checks the
/// garden, appends the plant and signs the result.
pub fn sow_plant(garden: NatureApproved, plant_type: String, secret: &str) -> (r: Result<
    NatureApproved,
    CotyledonError,
>)
    ensures
        match admission(garden, secret@) {
            Err(e) => r == Err::<NatureApproved, CotyledonError>(
                CotyledonError::InvalidSignature(e),
            ),
            Ok(()) => match catalog_grow_time(plant_type@) {
                None => r is Err && r->Err_0 is InvalidPlantType && r->Err_0->InvalidPlantType_0@
                    == invalid_type_message(plant_type@),
                Some(_) => match r {
                    Ok(g) => sown_one(garden, g, plant_type@) && is_signed_with(g, secret@),
                    Err(e) => e is InternalError,
                },
            },
        },
{
    let ghost before = garden;
    let mut garden = garden;
    match check_admission(&garden, secret) {
        Ok(()) => {},
        Err(e) => return Err(e),
    }
    let plant = match Plant::new(plant_type) {
        Ok(p) => p,
        Err(e) => return Err(e),
    };
    garden.sow(plant);
    garden.sign(secret);
    assert(garden.plot.plants@.drop_last() =~= before.plot.plants@);
    Ok(garden)
}

/// Eight big-endian bytes read back give the integer they were made from.
pub proof fn lemma_be_round_trip(x: u64)
    ensures
        be_value(be_bytes(x as nat, 8)) == x as nat,
{
    reveal_with_fuel(be_value, 9);
    reveal_with_fuel(be_bytes, 9);
    let b = be_bytes(x as nat, 8);
    let x1 = x as nat / 256;
    let x2 = x1 / 256;
    let x3 = x2 / 256;
    let x4 = x3 / 256;
    let x5 = x4 / 256;
    let x6 = x5 / 256;
    let x7 = x6 / 256;
    assert(b.drop_last() == be_bytes(x1, 7));
    assert(be_bytes(x1, 7).drop_last() == be_bytes(x2, 6));
    assert(be_bytes(x2, 6).drop_last() == be_bytes(x3, 5));
    assert(be_bytes(x3, 5).drop_last() == be_bytes(x4, 4));
    assert(be_bytes(x4, 4).drop_last() == be_bytes(x5, 3));
    assert(be_bytes(x5, 3).drop_last() == be_bytes(x6, 2));
    assert(be_bytes(x6, 2).drop_last() == be_bytes(x7, 1));
    assert(be_bytes(x7, 1).drop_last() =~= Seq::<u8>::empty());
}

/// A garden signed under a secret passes the signature check under that secret.
pub proof fn lemma_signed_garden_is_honest(g: NatureApproved, secret: Seq<char>)
    requires
        is_signed_with(g, secret),
    ensures
        signature_check(g.nature_approved, g.plot.plants@, secret) == Ok::<(), SignatureError>(()),
        admission(g, secret) == Ok::<(), SignatureError>(()),
{
    let h = plot_hash(g.plot.plants@, secret);
    lemma_be_round_trip(h);
    reveal_with_fuel(be_bytes, 9);
}

/// A signature made for one plot and secret is rejected as a mismatch for any
/// plot and secret whose hash differs: a changed, added, removed or reordered
/// plant, or another secret.
pub proof fn lemma_signature_rejects_other_plot(
    g: NatureApproved,
    secret: Seq<char>,
    plants: Seq<Plant>,
    other_secret: Seq<char>,
)
    requires
        is_signed_with(g, secret),
        plot_hash(plants, other_secret) != plot_hash(g.plot.plants@, secret),
    ensures
        signature_check(g.nature_approved, plants, other_secret) == Err::<(), SignatureError>(
            SignatureError::Mismatch,
        ),
{
    let h = plot_hash(g.plot.plants@, secret);
    lemma_be_round_trip(h);
    reveal_with_fuel(be_bytes, 9);
}

/// Where the plants' writes stand in the hash input: three for each plant, the
/// type's bytes second and the planting time third.
proof fn lemma_plant_writes_layout(plants: Seq<Plant>)
    ensures
        plant_writes(plants).len() == 3 * plants.len(),
        forall|i: int|
            0 <= i < plants.len() ==> plant_writes(plants)[3 * i + 1] == encode_utf8(
                (#[trigger] plants[i]).plant_type@,
            ) && plant_writes(plants)[3 * i + 2] == be_bytes(plants[i].planted.0 as nat, 8),
    decreases plants.len(),
{
    if plants.len() > 0 {
        let init = plants.drop_last();
        lemma_plant_writes_layout(init);
        assert forall|i: int| 0 <= i < plants.len() implies plant_writes(plants)[3 * i + 1]
            == encode_utf8((#[trigger] plants[i]).plant_type@) && plant_writes(plants)[3 * i + 2]
            == be_bytes(plants[i].planted.0 as nat, 8) by {
            if i < plants.len() - 1 {
                assert(plants[i] == init[i]);
            }
        }
    }
}

/// Two eight-byte encodings agree only for the same integer.
proof fn lemma_be_bytes_injective(x: u64, y: u64)
    requires
        be_bytes(x as nat, 8) == be_bytes(y as nat, 8),
    ensures
        x == y,
{
    lemma_be_round_trip(x);
    lemma_be_round_trip(y);
}

/// The hash input pins down what it was made from: where two plots under two
/// secrets give the same input, the plots hold the same plants, field by field
/// and in the same order, and the secrets are the same. So a changed, added,
/// removed or reordered plant, or another secret, changes what is hashed.
pub proof fn lemma_hash_input_determines_plot(
    plants: Seq<Plant>,
    secret: Seq<char>,
    other: Seq<Plant>,
    other_secret: Seq<char>,
)
    requires
        plot_writes(plants, secret) == plot_writes(other, other_secret),
    ensures
        plants.len() == other.len(),
        secret == other_secret,
        forall|i: int|
            0 <= i < plants.len() ==> (#[trigger] plants[i]).plant_type@ == other[i].plant_type@
                && plants[i].planted == other[i].planted,
{
    let w = plot_writes(plants, secret);
    lemma_plant_writes_layout(plants);
    lemma_plant_writes_layout(other);
    assert(w.len() == 3 * plants.len() + 3);
    assert(plot_writes(other, other_secret).len() == 3 * other.len() + 3);
    assert(plants.len() == other.len());
    let n = plants.len() as int;
    assert(w[3 * n + 2] == encode_utf8(secret));
    assert(plot_writes(other, other_secret)[3 * n + 2] == encode_utf8(other_secret));
    encode_utf8_decode_utf8(secret);
    encode_utf8_decode_utf8(other_secret);
    assert forall|i: int| 0 <= i < plants.len() implies (#[trigger] plants[i]).plant_type@
        == other[i].plant_type@ && plants[i].planted == other[i].planted by {
        assert(w[3 * i + 2] == plant_writes(plants)[3 * i + 1]);
        assert(plot_writes(other, other_secret)[3 * i + 2] == plant_writes(other)[3 * i + 1]);
        assert(w[3 * i + 3] == plant_writes(plants)[3 * i + 2]);
        assert(plot_writes(other, other_secret)[3 * i + 3] == plant_writes(other)[3 * i + 2]);
        encode_utf8_decode_utf8(plants[i].plant_type@);
        encode_utf8_decode_utf8(other[i].plant_type@);
        lemma_be_bytes_injective(plants[i].planted.0, other[i].planted.0);
    }
}

/// An empty plot is let through whatever its signature field holds, and any
/// other plot is held to its signature.
pub proof fn lemma_empty_plot_bypass(g: NatureApproved, secret: Seq<char>)
    ensures
        g.plot.plants@.len() == 0 ==> admission(g, secret) == Ok::<(), SignatureError>(()),
        g.plot.plants@.len() != 0 ==> admission(g, secret) == signature_check(
            g.nature_approved,
            g.plot.plants@,
            secret,
        ),
        g.plot.plants@.len() != 0 && g.nature_approved is None ==> admission(g, secret) == Err::<
            (),
            SignatureError,
        >(SignatureError::NotFound),
{
}

} // verus!
