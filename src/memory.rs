use vstd::prelude::*;

verus! {

/// A plain block of RAM answering the addresses `start..=end`.
pub struct GenericAddressable {
    pub memory: Vec<u8>,
    pub start: u16,
    pub end: u16,
}

impl GenericAddressable {
    pub open spec fn wf(&self) -> bool {
        self.start <= self.end && self.memory@.len() == self.end - self.start + 1
    }

    pub open spec fn in_range(&self, location: u16) -> bool {
        self.start <= location <= self.end
    }

    pub open spec fn spec_read(&self, location: u16) -> u8 {
        self.memory@[location - self.start]
    }

    /// A zeroed block for `start..=end`; an error when `end < start`.
    pub fn new(start: u16, end: u16) -> (r: Result<GenericAddressable, String>)
        ensures
            r.is_ok() <==> start <= end,
            r matches Ok(m) ==> m.wf() && m.start == start && m.end == end && forall|i: int|
                0 <= i < m.memory@.len() ==> m.memory@[i] == 0,
    {
        if end < start {
            return Err("end address is before start address".to_owned());
        }
        let size: usize = (end - start) as usize + 1;
        let memory: Vec<u8> = vec![0u8; size];
        Ok(GenericAddressable { memory, start, end })
    }

    /// The block for `start..=end`, which the caller knows to be ordered.
    pub fn with_range(start: u16, end: u16) -> (r: GenericAddressable)
        requires
            start <= end,
        ensures
            r.wf() && r.start == start && r.end == end,
            forall|i: int| 0 <= i < r.memory@.len() ==> r.memory@[i] == 0,
    {
        let size: usize = (end - start) as usize + 1;
        let memory: Vec<u8> = vec![0u8; size];
        GenericAddressable { memory, start, end }
    }

    pub fn read(&self, location: u16) -> (r: u8)
        requires
            self.wf(),
            self.in_range(location),
        ensures
            r == self.spec_read(location),
    {
        self.memory[(location - self.start) as usize]
    }

    pub fn write(&mut self, location: u16, byte: u8)
        requires
            old(self).wf(),
            old(self).in_range(location),
        ensures
            final(self).wf(),
            final(self).start == old(self).start,
            final(self).end == old(self).end,
            final(self).memory@ == old(self).memory@.update(location - old(self).start, byte),
    {
        let i: usize = (location - self.start) as usize;
        self.memory.set(i, byte);
    }
}

} // verus!
