//! A processor's view of memory: `2^width` addresses, each either unmapped
//! or backed by a byte of storage, with accesses wrapping at the top.
use vstd::prelude::*;

verus! {

/// Why a memory access was refused.
#[derive(Debug, Clone, Copy, PartialEq, Eq, Structural)]
pub enum MemoryError {
    /// Nothing readable (or writable) is mapped at the address.
    Denied,
}

/// Address space of `2^width` addresses. Every address is translated to a
/// storage cell (two addresses share a cell when one mirrors the other) and
/// carries its own read and write permission.
#[derive(Debug)]
pub struct AddressSpace {
    width: u8,
    data: Vec<u8>,
    target: Vec<usize>,
    readable: Vec<bool>,
    writable: Vec<bool>,
}

pub open spec fn pow2(width: nat) -> nat
    decreases width,
{
    if width == 0 {
        1
    } else {
        2 * pow2((width - 1) as nat)
    }
}

impl AddressSpace {
    pub closed spec fn spec_width(&self) -> nat {
        self.width as nat
    }

    /// Number of addresses.
    pub open spec fn size(&self) -> nat {
        pow2(self.spec_width())
    }

    /// Storage cell an address is backed by.
    pub closed spec fn cell(&self, address: int) -> int {
        self.target@[address] as int
    }

    /// Contents of the storage cells.
    pub closed spec fn cells(&self) -> Seq<u8> {
        self.data@
    }

    pub closed spec fn is_readable(&self, address: int) -> bool {
        self.readable@[address]
    }

    pub closed spec fn is_writable(&self, address: int) -> bool {
        self.writable@[address]
    }

    pub closed spec fn wf(&self) -> bool {
        &&& 1 <= self.width <= 16
        &&& pow2(self.width as nat) <= 65536
        &&& self.data@.len() == pow2(self.width as nat)
        &&& self.target@.len() == pow2(self.width as nat)
        &&& self.readable@.len() == pow2(self.width as nat)
        &&& self.writable@.len() == pow2(self.width as nat)
        &&& forall|i: int| 0 <= i < self.target@.len() ==> #[trigger] self.target@[i] < pow2(
            self.width as nat,
        )
    }

    /// Address `address` lands on once it wraps around the top.
    pub closed spec fn wrap(&self, address: int) -> int {
        address % (self.size() as int)
    }

    /// Value a read of one byte at `address` gives back when the storage
    /// holds `cells`.
    pub closed spec fn read_in(&self, cells: Seq<u8>, address: int) -> Option<u8> {
        let a = self.wrap(address);
        if self.is_readable(a) {
            Some(cells[self.cell(a)])
        } else {
            None
        }
    }

    /// A read that gives 0 where nothing readable is mapped.
    pub closed spec fn read_or_zero(&self, cells: Seq<u8>, address: int) -> u8 {
        match self.read_in(cells, address) {
            Some(v) => v,
            None => 0,
        }
    }

    /// Storage after a one byte write of `value` at `address` to `cells`;
    /// unchanged where the address is not writable.
    pub closed spec fn write_in(&self, cells: Seq<u8>, address: int, value: u8) -> Seq<u8> {
        let a = self.wrap(address);
        if self.is_writable(a) {
            cells.update(self.cell(a), value)
        } else {
            cells
        }
    }

    /// Value a read of one byte at `address` gives back.
    pub closed spec fn spec_read(&self, address: int) -> Option<u8> {
        self.read_in(self.cells(), address)
    }

    /// Whether a one byte write at `address` goes through.
    pub closed spec fn spec_can_write(&self, address: int) -> bool {
        self.is_writable(self.wrap(address))
    }

    /// The address space after writing `value` at `address`.
    pub open spec fn same_mapping(&self, other: &AddressSpace) -> bool {
        &&& other.spec_width() == self.spec_width()
        &&& forall|a: int| #[trigger] other.cell(a) == self.cell(a)
        &&& forall|a: int| #[trigger] other.is_readable(a) == self.is_readable(a)
        &&& forall|a: int| #[trigger] other.is_writable(a) == self.is_writable(a)
    }

    /// A space of `2^width` addresses with nothing mapped.
    pub fn new(width: u8) -> (r: Self)
        requires
            1 <= width <= 16,
        ensures
            r.wf(),
            r.spec_width() == width,
            forall|a: int| 0 <= a < r.size() ==> !#[trigger] r.is_readable(a) && !r.is_writable(a),
            forall|a: int| 0 <= a < r.size() ==> #[trigger] r.cell(a) == a,
            forall|c: int| 0 <= c < r.size() ==> #[trigger] r.cells()[c] == 0,
    {
        let size = Self::size_of_width(width);
        let mut data: Vec<u8> = Vec::new();
        let mut target: Vec<usize> = Vec::new();
        let mut readable: Vec<bool> = Vec::new();
        let mut writable: Vec<bool> = Vec::new();
        let mut i: usize = 0;
        while i < size
            invariant
                size == pow2(width as nat),
                i <= size,
                data@.len() == i,
                target@.len() == i,
                readable@.len() == i,
                writable@.len() == i,
                forall|j: int| 0 <= j < i ==> #[trigger] target@[j] == j,
                forall|j: int| 0 <= j < i ==> #[trigger] data@[j] == 0,
                forall|j: int| 0 <= j < i ==> !#[trigger] readable@[j],
                forall|j: int| 0 <= j < i ==> !#[trigger] writable@[j],
            decreases size - i,
        {
            data.push(0);
            target.push(i);
            readable.push(false);
            writable.push(false);
            i = i + 1;
        }
        proof {
            lemma_pow2_le(width as nat, 16);
            lemma_pow2_16();
        }
        AddressSpace { width, data, target, readable, writable }
    }

    fn size_of_width(width: u8) -> (r: usize)
        requires
            width <= 16,
        ensures
            r == pow2(width as nat),
            r <= 65536,
        decreases width,
    {
        if width == 0 {
            1
        } else {
            let half = Self::size_of_width(width - 1);
            proof {
                lemma_pow2_le((width - 1) as nat, 15);
                lemma_pow2_16();
            }
            2 * half
        }
    }

    /// Width of the address space in bits.
    pub fn width(&self) -> (r: u8)
        ensures
            r == self.spec_width(),
    {
        self.width
    }

    fn wrap_exec(&self, address: usize) -> (r: usize)
        requires
            self.wf(),
        ensures
            r == self.wrap(address as int),
            r < self.size(),
    {
        proof {
            lemma_pow2_positive(self.width as nat);
        }
        let size = self.data.len();
        address % size
    }

    /// Reads the byte at `address`.
    pub fn read_byte(&self, address: usize) -> (r: Option<u8>)
        requires
            self.wf(),
        ensures
            r == self.spec_read(address as int),
    {
        let a = self.wrap_exec(address);
        if self.readable[a] {
            Some(self.data[self.target[a]])
        } else {
            None
        }
    }

    /// Reads the byte at `address`, giving 0 where nothing readable is mapped.
    pub fn read_or_zero_byte(&self, address: usize) -> (r: u8)
        requires
            self.wf(),
        ensures
            r == self.read_or_zero(self.cells(), address as int),
            self.spec_read(address as int) is Some ==> Some(r) == self.spec_read(address as int),
    {
        match self.read_byte(address) {
            Some(v) => v,
            None => 0,
        }
    }

    /// Whether a one byte write at `address` goes through.
    pub fn can_write(&self, address: usize) -> (r: bool)
        requires
            self.wf(),
        ensures
            r == self.spec_can_write(address as int),
    {
        let a = self.wrap_exec(address);
        self.writable[a]
    }

    /// Writes `value` at `address`; refused where the address is not writable.
    pub fn write_byte(&mut self, address: usize, value: u8) -> (r: Result<(), MemoryError>)
        requires
            old(self).wf(),
        ensures
            final(self).wf(),
            old(self).same_mapping(final(self)),
            r is Ok <==> old(self).spec_can_write(address as int),
            final(self).cells() == old(self).write_in(old(self).cells(), address as int, value),
    {
        let a = self.wrap_exec(address);
        if self.writable[a] {
            let c = self.target[a];
            self.data.set(c, value);
            Ok(())
        } else {
            Err(MemoryError::Denied)
        }
    }

    /// Maps storage at `start..=end` with the given permissions and fills it with `value`.
    pub fn map_memory(&mut self, start: usize, end: usize, readable: bool, writable: bool, value: u8)
        requires
            old(self).wf(),
            start <= end < old(self).size(),
        ensures
            final(self).wf(),
            final(self).spec_width() == old(self).spec_width(),
            forall|a: int|
                #![trigger final(self).cell(a)]
                start <= a <= end ==> final(self).cell(a) == a && final(self).is_readable(a)
                    == readable && final(self).is_writable(a) == writable,
            forall|a: int|
                #![trigger final(self).cell(a)]
                0 <= a < final(self).size() && !(start <= a <= end) ==> final(self).cell(a)
                    == old(self).cell(a) && final(self).is_readable(a) == old(self).is_readable(a)
                    && final(self).is_writable(a) == old(self).is_writable(a),
            forall|c: int|
                #![trigger final(self).cells()[c]]
                0 <= c < final(self).size() ==> final(self).cells()[c] == if start <= c <= end {
                    value
                } else {
                    old(self).cells()[c]
                },
    {
        let mut a = start;
        while a <= end
            invariant
                old(self).wf(),
                self.wf(),
                self.width == old(self).width,
                start <= a <= end + 1,
                end < pow2(self.width as nat),
                forall|i: int| start <= i < a ==> #[trigger] self.target@[i] == i,
                forall|i: int| start <= i < a ==> #[trigger] self.readable@[i] == readable,
                forall|i: int| start <= i < a ==> #[trigger] self.writable@[i] == writable,
                forall|i: int|
                    0 <= i < pow2(self.width as nat) && !(start <= i < a) ==> #[trigger] self.target@[i]
                        == old(self).target@[i],
                forall|i: int|
                    0 <= i < pow2(self.width as nat) && !(start <= i < a) ==> #[trigger] self.readable@[i]
                        == old(self).readable@[i],
                forall|i: int|
                    0 <= i < pow2(self.width as nat) && !(start <= i < a) ==> #[trigger] self.writable@[i]
                        == old(self).writable@[i],
                forall|c: int|
                    #![trigger self.data@[c]]
                    0 <= c < pow2(self.width as nat) ==> self.data@[c] == if start <= c < a {
                        value
                    } else {
                        old(self).data@[c]
                    },
            decreases end + 1 - a,
        {
            self.target.set(a, a);
            self.readable.set(a, readable);
            self.writable.set(a, writable);
            self.data.set(a, value);
            a = a + 1;
        }
    }

    /// Maps storage at `start..=end` with the given permissions, holding `contents`.
    pub fn map_contents(&mut self, start: usize, end: usize, readable: bool, writable: bool, contents: &[u8])
        requires
            old(self).wf(),
            start <= end < old(self).size(),
            contents@.len() == end - start + 1,
        ensures
            final(self).wf(),
            final(self).spec_width() == old(self).spec_width(),
            forall|a: int|
                #![trigger final(self).cell(a)]
                start <= a <= end ==> final(self).cell(a) == a && final(self).is_readable(a)
                    == readable && final(self).is_writable(a) == writable,
            forall|a: int|
                #![trigger final(self).cell(a)]
                0 <= a < final(self).size() && !(start <= a <= end) ==> final(self).cell(a)
                    == old(self).cell(a) && final(self).is_readable(a) == old(self).is_readable(a)
                    && final(self).is_writable(a) == old(self).is_writable(a),
            forall|c: int|
                #![trigger final(self).cells()[c]]
                0 <= c < final(self).size() ==> final(self).cells()[c] == if start <= c <= end {
                    contents@[c - start]
                } else {
                    old(self).cells()[c]
                },
    {
        self.map_memory(start, end, readable, writable, 0);
        let ghost mapped = *self;
        let mut c = start;
        while c <= end
            invariant
                mapped.wf(),
                self.wf(),
                self.width == mapped.width,
                self.target@ == mapped.target@,
                self.readable@ == mapped.readable@,
                self.writable@ == mapped.writable@,
                start <= c <= end + 1,
                end < pow2(self.width as nat),
                contents@.len() == end - start + 1,
                forall|i: int|
                    #![trigger self.data@[i]]
                    0 <= i < pow2(self.width as nat) ==> self.data@[i] == if start <= i < c {
                        contents@[i - start]
                    } else {
                        mapped.data@[i]
                    },
            decreases end + 1 - c,
        {
            self.data.set(c, contents[c - start]);
            c = c + 1;
        }
        assert forall|a: int| #[trigger] self.cell(a) == mapped.cell(a) && self.is_readable(a)
            == mapped.is_readable(a) && self.is_writable(a) == mapped.is_writable(a) by {}
        assert forall|c: int| 0 <= c < self.size() implies #[trigger] self.cells()[c] == if start <= c
            <= end {
            contents@[c - start]
        } else {
            old(self).cells()[c]
        } by {
            assert(mapped.cells()[c] == mapped.data@[c]);
        }
    }

    /// Makes `start..=end` show whatever `destination..` shows, with the
    /// given permissions.
    pub fn map_mirror(
        &mut self,
        start: usize,
        end: usize,
        destination: usize,
        readable: bool,
        writable: bool,
    )
        requires
            old(self).wf(),
            start <= end < old(self).size(),
            destination + (end - start) < old(self).size(),
            destination + (end - start) < start || end < destination,
        ensures
            final(self).wf(),
            final(self).spec_width() == old(self).spec_width(),
            final(self).cells() == old(self).cells(),
            forall|a: int|
                #![trigger final(self).cell(a)]
                start <= a <= end ==> final(self).cell(a) == old(self).cell(destination + (a - start))
                    && final(self).is_readable(a) == readable && final(self).is_writable(a)
                    == writable,
            forall|a: int|
                #![trigger final(self).cell(a)]
                0 <= a < final(self).size() && !(start <= a <= end) ==> final(self).cell(a)
                    == old(self).cell(a) && final(self).is_readable(a) == old(self).is_readable(a)
                    && final(self).is_writable(a) == old(self).is_writable(a),
    {
        let mut a = start;
        while a <= end
            invariant
                old(self).wf(),
                self.wf(),
                self.width == old(self).width,
                self.data@ == old(self).data@,
                start <= a <= end + 1,
                end < pow2(self.width as nat),
                destination + (end - start) < pow2(self.width as nat),
                destination + (end - start) < start || end < destination,
                forall|i: int| start <= i < a ==> #[trigger] self.target@[i] == old(self).target@[destination + (i
                        - start)],
                forall|i: int| start <= i < a ==> #[trigger] self.readable@[i] == readable,
                forall|i: int| start <= i < a ==> #[trigger] self.writable@[i] == writable,
                forall|i: int|
                    0 <= i < pow2(self.width as nat) && !(start <= i < a) ==> #[trigger] self.target@[i]
                        == old(self).target@[i],
                forall|i: int|
                    0 <= i < pow2(self.width as nat) && !(start <= i < a) ==> #[trigger] self.readable@[i]
                        == old(self).readable@[i],
                forall|i: int|
                    0 <= i < pow2(self.width as nat) && !(start <= i < a) ==> #[trigger] self.writable@[i]
                        == old(self).writable@[i],
            decreases end + 1 - a,
        {
            let t = self.target[destination + (a - start)];
            assert(t == old(self).target@[destination + (a - start)]);
            self.target.set(a, t);
            self.readable.set(a, readable);
            self.writable.set(a, writable);
            a = a + 1;
        }
    }

    /// Reads `length` bytes from `address` on, wrapping at the top of the
    /// space; refused when any of them is unreadable.
    pub fn read(&self, address: usize, length: usize) -> (r: Result<Vec<u8>, MemoryError>)
        requires
            self.wf(),
            address + length <= usize::MAX,
        ensures
            r is Ok <==> forall|i: int| 0 <= i < length ==> #[trigger] self.spec_read(address + i)
                is Some,
            r matches Ok(v) ==> v@.len() == length && forall|i: int|
                0 <= i < length ==> Some(#[trigger] v@[i]) == self.spec_read(address + i),
    {
        let mut out: Vec<u8> = Vec::new();
        let mut i: usize = 0;
        while i < length
            invariant
                self.wf(),
                address + length <= usize::MAX,
                i <= length,
                out@.len() == i,
                forall|j: int| 0 <= j < i ==> Some(#[trigger] out@[j]) == self.spec_read(address + j),
            decreases length - i,
        {
            match self.read_byte(address + i) {
                Some(b) => out.push(b),
                None => {
                    assert(self.spec_read(address + i) is None);
                    return Err(MemoryError::Denied);
                },
            }
            i = i + 1;
        }
        assert forall|j: int| 0 <= j < length implies #[trigger] self.spec_read(address + j) is Some by {
            assert(Some(out@[j]) == self.spec_read(address + j));
        }
        Ok(out)
    }
}

impl AddressSpace {
    /// Memory after `data` is written from `address` on into `cells`, byte
    /// by byte.
    pub open spec fn write_all_in(&self, cells: Seq<u8>, address: int, data: Seq<u8>) -> Seq<u8>
        decreases data.len(),
    {
        if data.len() == 0 {
            cells
        } else {
            self.write_in(
                self.write_all_in(cells, address, data.drop_last()),
                address + data.len() - 1,
                data.last(),
            )
        }
    }

    /// Writes `data` from `address` on, wrapping at the top of the space;
    /// refused, writing nothing, when any of the addresses is not writable.
    pub fn write(&mut self, address: usize, data: &[u8]) -> (r: Result<(), MemoryError>)
        requires
            old(self).wf(),
            address + data@.len() <= usize::MAX,
        ensures
            final(self).wf(),
            old(self).same_mapping(final(self)),
            r is Ok <==> forall|i: int| 0 <= i < data@.len() ==> #[trigger] old(self).spec_can_write(
                address + i,
            ),
            r is Ok ==> final(self).cells() == old(self).write_all_in(
                old(self).cells(),
                address as int,
                data@,
            ),
            r is Err ==> final(self).cells() == old(self).cells(),
    {
        let mut i: usize = 0;
        while i < data.len()
            invariant
                self.wf(),
                address + data@.len() <= usize::MAX,
                i <= data@.len(),
                forall|j: int| 0 <= j < i ==> #[trigger] self.spec_can_write(address + j),
            decreases data@.len() - i,
        {
            let a = self.wrap_exec(address + i);
            if !self.writable[a] {
                assert(!self.spec_can_write(address + i));
                return Err(MemoryError::Denied);
            }
            i = i + 1;
        }
        let mut k: usize = 0;
        while k < data.len()
            invariant
                old(self).wf(),
                self.wf(),
                old(self).same_mapping(self),
                address + data@.len() <= usize::MAX,
                k <= data@.len(),
                forall|j: int| 0 <= j < data@.len() ==> #[trigger] old(self).spec_can_write(address + j),
                self.cells() == old(self).write_all_in(
                    old(self).cells(),
                    address as int,
                    data@.subrange(0, k as int),
                ),
            decreases data@.len() - k,
        {
            proof {
                lemma_same_mapping(old(self), self);
                assert(data@.subrange(0, k + 1).drop_last() =~= data@.subrange(0, k as int));
            }
            let _ = self.write_byte(address + k, data[k]);
            k = k + 1;
        }
        assert(data@.subrange(0, data@.len() as int) =~= data@);
        Ok(())
    }
}

/// A read gives back what a write to the same address wrote, where the
/// address is readable and writable; and a write leaves every address
/// backed by another storage cell as it was.
pub proof fn lemma_read_after_write(s: &AddressSpace, cells: Seq<u8>, a: int, b: int, value: u8)
    requires
        s.wf(),
        cells.len() == s.size(),
        0 <= a < s.size(),
        0 <= b < s.size(),
    ensures
        s.is_readable(a) && s.is_writable(a) ==> s.read_in(s.write_in(cells, a, value), a) == Some(
            value,
        ),
        s.cell(a) != s.cell(b) ==> s.read_in(s.write_in(cells, a, value), b) == s.read_in(cells, b),
{
    lemma_wf(s);
    lemma_access(s, cells, a, value);
    lemma_access(s, s.write_in(cells, a, value), a, value);
    lemma_access(s, cells, b, value);
    lemma_access(s, s.write_in(cells, a, value), b, value);
}

/// Two address spaces with the same mapping read and write any storage alike.
pub proof fn lemma_same_mapping(a: &AddressSpace, b: &AddressSpace)
    requires
        a.same_mapping(b),
    ensures
        forall|cells: Seq<u8>, address: int| #[trigger]
            a.read_in(cells, address) == b.read_in(cells, address),
        forall|cells: Seq<u8>, address: int| #[trigger]
            a.read_or_zero(cells, address) == b.read_or_zero(cells, address),
        forall|cells: Seq<u8>, address: int, value: u8| #[trigger]
            a.write_in(cells, address, value) == b.write_in(cells, address, value),
{
}

/// What every well formed address space has: one storage cell per
/// address, and every address backed by one of them.
pub proof fn lemma_wf(s: &AddressSpace)
    requires
        s.wf(),
    ensures
        s.cells().len() == s.size(),
        2 <= s.size() <= 65536,
        forall|a: int| 0 <= a < s.size() ==> 0 <= #[trigger] s.cell(a) < s.size(),
{
    lemma_pow2_le(1, s.width as nat);
    lemma_pow2_le(s.width as nat, 16);
    lemma_pow2_16();
    reveal_with_fuel(pow2, 2);
}

/// An access to an address below the size lands on that address.
pub proof fn lemma_access(s: &AddressSpace, cells: Seq<u8>, address: int, value: u8)
    requires
        s.wf(),
        0 <= address < s.size(),
    ensures
        s.wrap(address) == address,
        s.read_in(cells, address) == if s.is_readable(address) {
            Some(cells[s.cell(address)])
        } else {
            None
        },
        s.read_or_zero(cells, address) == if s.is_readable(address) {
            cells[s.cell(address)]
        } else {
            0u8
        },
        s.write_in(cells, address, value) == if s.is_writable(address) {
            cells.update(s.cell(address), value)
        } else {
            cells
        },
        s.spec_read(address) == s.read_in(s.cells(), address),
        s.spec_can_write(address) == s.is_writable(address),
{
    lemma_pow2_positive(s.width as nat);
    vstd::arithmetic::div_mod::lemma_small_mod(address as nat, s.size());
}

/// A 12 bit address space has 4096 addresses.
pub proof fn lemma_pow2_12()
    ensures
        pow2(12) == 4096,
{
    reveal_with_fuel(pow2, 13);
}

proof fn lemma_pow2_le(a: nat, b: nat)
    requires
        a <= b,
    ensures
        pow2(a) <= pow2(b),
    decreases b,
{
    if a < b {
        lemma_pow2_le(a, (b - 1) as nat);
    }
}

proof fn lemma_pow2_16()
    ensures
        pow2(15) == 32768,
        pow2(16) == 65536,
{
    reveal_with_fuel(pow2, 17);
}

pub proof fn lemma_pow2_positive(a: nat)
    ensures
        pow2(a) >= 1,
    decreases a,
{
    if a > 0 {
        lemma_pow2_positive((a - 1) as nat);
    }
}

} // verus!
