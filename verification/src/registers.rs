//! The shared register table: four fixed-size Modbus tables held in an
//! `rmodbus` storage context so that the Modbus frame processor can work on
//! them directly. Every access reads or writes one whole element.

use vstd::prelude::*;

use rmodbus::server::storage::ModbusStorage;

use crate::REGISTER_COUNT;

verus! {

#[verifier::external_type_specification]
#[verifier::external_body]
pub struct ExModbusStorage<const C: usize, const D: usize, const I: usize, const H: usize>(
    ModbusStorage<C, D, I, H>,
);

/// The coil contents of a register table: single bits, client-writable.
pub uninterp spec fn coils_of(s: ModbusStorage<8, 8, 8, 8>) -> Seq<bool>;

/// The discrete-input contents of a register table.
pub uninterp spec fn discretes_of(s: ModbusStorage<8, 8, 8, 8>) -> Seq<bool>;

/// The input-register contents of a register table: client-read-only words.
pub uninterp spec fn inputs_of(s: ModbusStorage<8, 8, 8, 8>) -> Seq<u16>;

/// The holding-register contents of a register table.
pub uninterp spec fn holdings_of(s: ModbusStorage<8, 8, 8, 8>) -> Seq<u16>;

/// Relies on rmodbus's `ModbusStorage::new`: every coil and discrete input
/// starts false and every register starts at zero.
#[verifier::external_body]
fn storage_new() -> (s: ModbusStorage<8, 8, 8, 8>)
    ensures
        coils_of(s) == Seq::new(8, |i: int| false),
        discretes_of(s) == Seq::new(8, |i: int| false),
        inputs_of(s) == Seq::new(8, |i: int| 0u16),
        holdings_of(s) == Seq::new(8, |i: int| 0u16),
{
    ModbusStorage::new()
}

/// Relies on the `coils` field of rmodbus's `ModbusStorage` being a plain
/// array of `bool`.
#[verifier::external_body]
fn storage_coil(s: &ModbusStorage<8, 8, 8, 8>, index: usize) -> (r: bool)
    requires
        index < coils_of(*s).len(),
    ensures
        r == coils_of(*s)[index as int],
{
    s.coils[index]
}

/// Relies on the `coils` field of rmodbus's `ModbusStorage` being a plain
/// array of `bool`: writing one element leaves everything else as it was.
#[verifier::external_body]
fn storage_set_coil(s: &mut ModbusStorage<8, 8, 8, 8>, index: usize, value: bool)
    requires
        index < coils_of(*old(s)).len(),
    ensures
        coils_of(*final(s)) == coils_of(*old(s)).update(index as int, value),
        discretes_of(*final(s)) == discretes_of(*old(s)),
        inputs_of(*final(s)) == inputs_of(*old(s)),
        holdings_of(*final(s)) == holdings_of(*old(s)),
{
    s.coils[index] = value;
}

/// Relies on the `inputs` field of rmodbus's `ModbusStorage` being a plain
/// array of `u16`.
#[verifier::external_body]
fn storage_input(s: &ModbusStorage<8, 8, 8, 8>, index: usize) -> (r: u16)
    requires
        index < inputs_of(*s).len(),
    ensures
        r == inputs_of(*s)[index as int],
{
    s.inputs[index]
}

/// Relies on the `inputs` field of rmodbus's `ModbusStorage` being a plain
/// array of `u16`: writing one element leaves everything else as it was.
#[verifier::external_body]
fn storage_set_input(s: &mut ModbusStorage<8, 8, 8, 8>, index: usize, value: u16)
    requires
        index < inputs_of(*old(s)).len(),
    ensures
        inputs_of(*final(s)) == inputs_of(*old(s)).update(index as int, value),
        coils_of(*final(s)) == coils_of(*old(s)),
        discretes_of(*final(s)) == discretes_of(*old(s)),
        holdings_of(*final(s)) == holdings_of(*old(s)),
{
    s.inputs[index] = value;
}

/// The four fixed-size register tables: the single source of truth shared by
/// the sensor channels and the network client. Created once at startup with
/// all-zero contents.
pub struct RegisterBank {
    pub(crate) storage: ModbusStorage<8, 8, 8, 8>,
}

impl RegisterBank {
    /// The coils, as a sequence of bits.
    pub closed spec fn coils(self) -> Seq<bool> {
        coils_of(self.storage)
    }

    /// The discrete inputs, as a sequence of bits.
    pub closed spec fn discrete_inputs(self) -> Seq<bool> {
        discretes_of(self.storage)
    }

    /// The input registers, as a sequence of words.
    pub closed spec fn input_registers(self) -> Seq<u16> {
        inputs_of(self.storage)
    }

    /// The holding registers, as a sequence of words.
    pub closed spec fn holding_registers(self) -> Seq<u16> {
        holdings_of(self.storage)
    }

    /// Each table holds exactly [`REGISTER_COUNT`] elements.
    pub open spec fn wf(self) -> bool {
        &&& self.coils().len() == REGISTER_COUNT
        &&& self.discrete_inputs().len() == REGISTER_COUNT
        &&& self.input_registers().len() == REGISTER_COUNT
        &&& self.holding_registers().len() == REGISTER_COUNT
    }

    /// A fresh table: all coils and discrete inputs false, all registers zero.
    pub fn new() -> (r: RegisterBank)
        ensures
            r.wf(),
            r.coils() == Seq::new(REGISTER_COUNT as nat, |i: int| false),
            r.discrete_inputs() == Seq::new(REGISTER_COUNT as nat, |i: int| false),
            r.input_registers() == Seq::new(REGISTER_COUNT as nat, |i: int| 0u16),
            r.holding_registers() == Seq::new(REGISTER_COUNT as nat, |i: int| 0u16),
    {
        RegisterBank { storage: storage_new() }
    }

    /// Read one coil.
    pub fn coil(&self, index: usize) -> (r: bool)
        requires
            self.wf(),
            index < REGISTER_COUNT,
        ensures
            r == self.coils()[index as int],
    {
        storage_coil(&self.storage, index)
    }

    /// Write one coil, leaving every other element of every table unchanged.
    pub fn set_coil(&mut self, index: usize, value: bool)
        requires
            old(self).wf(),
            index < REGISTER_COUNT,
        ensures
            final(self).wf(),
            final(self).coils() == old(self).coils().update(index as int, value),
            final(self).discrete_inputs() == old(self).discrete_inputs(),
            final(self).input_registers() == old(self).input_registers(),
            final(self).holding_registers() == old(self).holding_registers(),
    {
        storage_set_coil(&mut self.storage, index, value);
    }

    /// Read one input register.
    pub fn input_register(&self, index: usize) -> (r: u16)
        requires
            self.wf(),
            index < REGISTER_COUNT,
        ensures
            r == self.input_registers()[index as int],
    {
        storage_input(&self.storage, index)
    }

    /// Write one input register, leaving every other element of every table
    /// unchanged.
    pub fn set_input_register(&mut self, index: usize, value: u16)
        requires
            old(self).wf(),
            index < REGISTER_COUNT,
        ensures
            final(self).wf(),
            final(self).input_registers() == old(self).input_registers().update(
                index as int,
                value,
            ),
            final(self).coils() == old(self).coils(),
            final(self).discrete_inputs() == old(self).discrete_inputs(),
            final(self).holding_registers() == old(self).holding_registers(),
    {
        storage_set_input(&mut self.storage, index, value);
    }
}

} // verus!
