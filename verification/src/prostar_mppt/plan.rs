//! Which registers a new configuration changes.
//!
//! A configuration is written register by register, and only where the controller
//! holds something else: a register that already holds the wanted word is left alone.
//! The controller gives no way to undo a write, so a sequence of writes that stops
//! early leaves the registers written so far in their new state.

use vstd::prelude::*;
use crate::prostar_mppt::error::Error;
use crate::prostar_mppt::error::Operation;
use crate::prostar_mppt::field::Encoding;
use crate::prostar_mppt::field::Field;
use crate::prostar_mppt::field::SETTINGS_LEN;
use crate::prostar_mppt::settings::Settings;

verus! {

/// One register of the configuration block, and the word to write to it.
#[derive(Debug, Clone, Copy, PartialEq, Eq, Structural)]
pub struct RegisterWrite {
    pub field: Field,
    pub value: u16,
}

impl RegisterWrite {
    /// The address of the register.
    pub fn address(&self) -> (address: u16)
        ensures
            address == self.field.spec_address(),
    {
        self.field.address()
    }
}

/// The configuration block `current` after the first `count` of `writes` have been
/// carried out on it.
pub open spec fn applied(current: Seq<u16>, writes: Seq<RegisterWrite>, count: nat) -> Seq<u16>
    recommends
        count <= writes.len(),
    decreases count,
{
    if count == 0 {
        current
    } else {
        let write = writes[count - 1];
        applied(current, writes, (count - 1) as nat).update(
            write.field.spec_offset() as int,
            write.value,
        )
    }
}

impl Settings {
    /// Whether the configuration block `current` holds another word for `field` than
    /// this configuration does.
    pub open spec fn differs(self, current: Seq<u16>, field: Field) -> bool {
        current[field.spec_offset() as int] != self.spec_register(field)
    }

    /// The writes that bring the first `upto` registers of the configuration block
    /// `current` to this configuration: one for each field that differs, in the order
    /// of the block.
    pub open spec fn changes(self, current: Seq<u16>, upto: nat) -> Seq<RegisterWrite>
        recommends
            current.len() == SETTINGS_LEN,
            upto <= SETTINGS_LEN,
        decreases upto,
    {
        if upto == 0 {
            Seq::empty()
        } else {
            let before = self.changes(current, (upto - 1) as nat);
            match Field::spec_at((upto - 1) as usize) {
                Some(field) if self.differs(current, field) => before.push(
                    RegisterWrite { field, value: self.spec_register(field) },
                ),
                _ => before,
            }
        }
    }

    /// The writes that bring the controller from the configuration block `current` to
    /// this configuration.
    ///
    /// A block of any other length than that of the configuration block is refused.
    pub fn pending_writes(&self, current: &[u16]) -> (r: Result<Vec<RegisterWrite>, Error>)
        ensures
            current@.len() == SETTINGS_LEN ==> (r matches Ok(writes) && writes@ == self.changes(
                current@,
                SETTINGS_LEN as nat,
            )),
            current@.len() != SETTINGS_LEN ==> (r matches Err(e) && e == Error::WrongSize {
                operation: Operation::ReadCurrentSettings,
                expected: SETTINGS_LEN,
                found: current@.len() as usize,
            }),
    {
        if current.len() != SETTINGS_LEN {
            return Err(
                Error::WrongSize {
                    operation: Operation::ReadCurrentSettings,
                    expected: SETTINGS_LEN,
                    found: current.len(),
                },
            );
        }
        let mut writes: Vec<RegisterWrite> = Vec::new();
        let mut offset: usize = 0;
        while offset < SETTINGS_LEN
            invariant
                offset <= SETTINGS_LEN,
                current@.len() == SETTINGS_LEN,
                writes@ == self.changes(current@, offset as nat),
            decreases SETTINGS_LEN - offset,
        {
            match Field::at(offset) {
                Some(field) => {
                    let value: u16 = self.register(field);
                    if current[offset] != value {
                        writes.push(RegisterWrite { field, value });
                    }
                },
                None => {},
            }
            offset += 1;
        }
        Ok(writes)
    }

    /// What the writes are: each one brings a field that differs to the word of this
    /// configuration; they stand in the order of the configuration block; and every
    /// field that differs has one.
    pub proof fn lemma_changes(self, current: Seq<u16>, upto: nat)
        requires
            current.len() == SETTINGS_LEN,
            upto <= SETTINGS_LEN,
        ensures
            forall|k: int|
                0 <= k < self.changes(current, upto).len() ==> {
                    let write = #[trigger] self.changes(current, upto)[k];
                    &&& write.field.spec_offset() < upto
                    &&& write.value == self.spec_register(write.field)
                    &&& self.differs(current, write.field)
                },
            forall|j: int, k: int|
                0 <= j < k < self.changes(current, upto).len() ==> (
                #[trigger] self.changes(current, upto)[j]).field.spec_offset() < (
                #[trigger] self.changes(current, upto)[k]).field.spec_offset(),
            forall|field: Field|
                field.spec_offset() < upto && #[trigger] self.differs(current, field)
                    ==> self.changes(current, upto).contains(
                    RegisterWrite { field, value: self.spec_register(field) },
                ),
        decreases upto,
    {
        if upto > 0 {
            let before = self.changes(current, (upto - 1) as nat);
            let all = self.changes(current, upto);
            self.lemma_changes(current, (upto - 1) as nat);
            Field::lemma_at((upto - 1) as usize);
            assert forall|k: int| 0 <= k < before.len() implies all[k] == before[k] by {}
            assert forall|field: Field|
                field.spec_offset() < upto && #[trigger] self.differs(current, field) implies all.contains(
                RegisterWrite { field, value: self.spec_register(field) },
            ) by {
                let write = RegisterWrite { field, value: self.spec_register(field) };
                field.lemma_one_register_each(field);
                if field.spec_offset() < upto - 1 {
                    assert(before.contains(write));
                    let k = choose|k: int| 0 <= k < before.len() && before[k] == write;
                    assert(all[k] == write);
                } else {
                    assert(Field::spec_at((upto - 1) as usize) == Some(field));
                    assert(all == before.push(write));
                    assert(all[all.len() - 1] == write);
                }
            }
        }
    }

    /// Where the controller already holds this configuration in every field, nothing
    /// is written.
    pub proof fn lemma_no_difference_no_write(self, current: Seq<u16>)
        requires
            current.len() == SETTINGS_LEN,
            forall|field: Field| !self.differs(current, field),
        ensures
            self.changes(current, SETTINGS_LEN as nat).len() == 0,
    {
        let writes = self.changes(current, SETTINGS_LEN as nat);
        self.lemma_changes(current, SETTINGS_LEN as nat);
        if writes.len() > 0 {
            assert(self.differs(current, writes[0].field));
        }
    }

    /// Where the controller differs from this configuration in exactly one field, one
    /// register is written: that field's, with the word of this configuration.
    pub proof fn lemma_one_difference_one_write(self, current: Seq<u16>, field: Field)
        requires
            current.len() == SETTINGS_LEN,
            forall|other: Field| self.differs(current, other) <==> other == field,
        ensures
            self.changes(current, SETTINGS_LEN as nat) == seq![
                RegisterWrite { field, value: self.spec_register(field) },
            ],
    {
        let writes = self.changes(current, SETTINGS_LEN as nat);
        let write = RegisterWrite { field, value: self.spec_register(field) };
        self.lemma_changes(current, SETTINGS_LEN as nat);
        field.lemma_one_register_each(field);
        assert(self.differs(current, field));
        assert(writes.contains(write));
        assert forall|k: int| 0 <= k < writes.len() implies writes[k] == write by {
            assert(self.differs(current, writes[k].field));
        }
        if writes.len() > 1 {
            assert(writes[0].field.spec_offset() < writes[1].field.spec_offset());
        }
        assert(writes =~= seq![write]);
    }

    /// The configuration block that holds this configuration needs no write.
    pub proof fn lemma_image_needs_no_write(self)
        ensures
            self.changes(self.image(), SETTINGS_LEN as nat).len() == 0,
    {
        assert forall|field: Field| !self.differs(self.image(), field) by {
            field.lemma_one_register_each(field);
        }
        self.lemma_no_difference_no_write(self.image());
    }

    /// Whether the configuration block `raw` holds, in the register of every field, a
    /// word that the field's encoding writes: no flag word other than 0 and 1, no
    /// bus address above the low byte.
    pub open spec fn canonical(raw: Seq<u16>) -> bool {
        forall|field: Field|
            match #[trigger] field.spec_encoding() {
                Encoding::Flag => raw[field.spec_offset() as int] <= 1,
                Encoding::Byte => raw[field.spec_offset() as int] <= 255,
                _ => true,
            }
    }

    /// A configuration that was read from the controller needs no write to the
    /// controller, as long as it was read from words that the encodings write.
    pub proof fn lemma_unchanged_needs_no_write(raw: Seq<u16>)
        requires
            raw.len() == SETTINGS_LEN,
            Settings::canonical(raw),
        ensures
            Settings::decoded(raw).changes(raw, SETTINGS_LEN as nat).len() == 0,
    {
        let settings = Settings::decoded(raw);
        assert forall|field: Field| !settings.differs(raw, field) by {
            Settings::lemma_decoded_field(raw, field);
            field.spec_encoding().lemma_encode_decode(raw[field.spec_offset() as int]);
        }
        settings.lemma_no_difference_no_write(raw);
    }

    /// What the controller holds after the first `count` writes have been carried out:
    /// the word of this configuration in the fields of those writes, and what it held
    /// before everywhere else.
    pub proof fn lemma_partial_writes(self, current: Seq<u16>, count: nat)
        requires
            current.len() == SETTINGS_LEN,
            count <= self.changes(current, SETTINGS_LEN as nat).len(),
        ensures
            applied(current, self.changes(current, SETTINGS_LEN as nat), count).len()
                == SETTINGS_LEN,
            forall|k: int|
                0 <= k < count ==> {
                    let write = #[trigger] self.changes(current, SETTINGS_LEN as nat)[k];
                    applied(current, self.changes(current, SETTINGS_LEN as nat), count)[write.field.spec_offset() as int]
                        == self.spec_register(write.field)
                },
            forall|i: int|
                0 <= i < SETTINGS_LEN && (forall|k: int|
                    0 <= k < count ==> (#[trigger] self.changes(
                        current,
                        SETTINGS_LEN as nat,
                    )[k]).field.spec_offset() != i) ==> #[trigger] applied(
                    current,
                    self.changes(current, SETTINGS_LEN as nat),
                    count,
                )[i] == current[i],
        decreases count,
    {
        let writes = self.changes(current, SETTINGS_LEN as nat);
        self.lemma_changes(current, SETTINGS_LEN as nat);
        if count > 0 {
            self.lemma_partial_writes(current, (count - 1) as nat);
            let last = writes[count - 1];
            let before = applied(current, writes, (count - 1) as nat);
            let after = applied(current, writes, count);
            assert(after == before.update(last.field.spec_offset() as int, last.value));
            assert forall|k: int| 0 <= k < count implies after[(#[trigger] writes[k]).field.spec_offset() as int]
                == self.spec_register(writes[k].field) by {
                if k < count - 1 {
                    assert(writes[k].field.spec_offset() < writes[count - 1].field.spec_offset());
                }
            }
        }
    }

    /// After every write has been carried out, the controller holds this configuration
    /// in every field, and what it held before in the registers of no field.
    pub proof fn lemma_all_writes_install(self, current: Seq<u16>)
        requires
            current.len() == SETTINGS_LEN,
        ensures
            ({
                let writes = self.changes(current, SETTINGS_LEN as nat);
                let after = applied(current, writes, writes.len());
                &&& after.len() == SETTINGS_LEN
                &&& forall|field: Field| !self.differs(after, field)
                &&& forall|i: int|
                    0 <= i < SETTINGS_LEN && Field::spec_at(i as usize) is None ==> after[i]
                        == current[i]
            }),
    {
        let writes = self.changes(current, SETTINGS_LEN as nat);
        let after = applied(current, writes, writes.len());
        self.lemma_changes(current, SETTINGS_LEN as nat);
        self.lemma_partial_writes(current, writes.len());
        assert forall|field: Field| !self.differs(after, field) by {
            field.lemma_one_register_each(field);
            let write = RegisterWrite { field, value: self.spec_register(field) };
            if self.differs(current, field) {
                assert(writes.contains(write));
                let k = choose|k: int| 0 <= k < writes.len() && writes[k] == write;
                assert(after[writes[k].field.spec_offset() as int] == self.spec_register(
                    writes[k].field,
                ));
            } else {
                assert forall|k: int| 0 <= k < writes.len() implies (#[trigger] writes[k]).field.spec_offset()
                    != field.spec_offset() by {
                    if writes[k].field.spec_offset() == field.spec_offset() {
                        writes[k].field.lemma_one_register_each(field);
                    }
                }
                assert(after[field.spec_offset() as int] == current[field.spec_offset() as int]);
            }
        }
        assert forall|i: int|
            0 <= i < SETTINGS_LEN && Field::spec_at(i as usize) is None implies after[i]
            == current[i] by {
            assert forall|k: int| 0 <= k < writes.len() implies (#[trigger] writes[k]).field.spec_offset()
                != i by {
                writes[k].field.lemma_one_register_each(writes[k].field);
            }
        }
    }
}

} // verus!
