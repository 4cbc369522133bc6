//! Byte containers: a flat one that wraps addresses modulo its capacity, and
//! a banked one that maps address windows onto banks of a larger array.

use vstd::prelude::*;

verus! {

/// A device that answers reads on an address bus. Reading may change the
/// device (a status register that clears, a shift register that advances).
pub trait MemRead {
    fn read(&mut self, addr: usize) -> (value: u8);
}

/// A device that takes writes on an address bus.
pub trait MemWrite {
    fn write(&mut self, addr: usize, value: u8);
}

/// A copy of `src` as a vector.
pub fn copy_bytes(src: &[u8]) -> (r: Vec<u8>)
    ensures
        r@ == src@,
{
    let mut v: Vec<u8> = Vec::new();
    let mut i: usize = 0;
    while i < src.len()
        invariant
            i <= src.len(),
            v@ == src@.subrange(0, i as int),
        decreases src.len() - i,
    {
        v.push(src[i]);
        i += 1;
    }
    assert(src@.subrange(0, src@.len() as int) == src@);
    v
}

/// The sequence of `n` zero bytes.
pub open spec fn zeros(n: nat) -> Seq<u8> {
    Seq::new(n, |i: int| 0u8)
}

/// A vector of `n` zero bytes.
pub fn zero_bytes(n: usize) -> (r: Vec<u8>)
    ensures
        r@ == zeros(n as nat),
{
    let v: Vec<u8> = vec![0u8; n];
    assert(v@ =~= zeros(n as nat));
    v
}

/// What a flat container holds: its bytes and whether writes go through.
pub struct MemoryView {
    pub data: Seq<u8>,
    pub writable: bool,
}

impl MemoryView {
    /// The byte at `addr` modulo the capacity; 0 from an empty container.
    pub open spec fn read(self, addr: int) -> u8 {
        if self.data.len() > 0 {
            self.data[addr % (self.data.len() as int)]
        } else {
            0
        }
    }

    /// The container after a write of `value` at `addr` modulo the capacity.
    /// An empty or write-protected container is left as it is.
    pub open spec fn write(self, addr: int, value: u8) -> MemoryView {
        if self.data.len() > 0 && self.writable {
            MemoryView { data: self.data.update(addr % (self.data.len() as int), value), ..self }
        } else {
            self
        }
    }
}

/// A fixed-capacity byte container with an optional write protection.
#[derive(Debug)]
pub struct Memory {
    pub data: Vec<u8>,
    pub writable: bool,
}

impl View for Memory {
    type V = MemoryView;

    open spec fn view(&self) -> MemoryView {
        MemoryView { data: self.data@, writable: self.writable }
    }
}

impl Clone for Memory {
    fn clone(&self) -> (r: Self)
        ensures
            r@ == self@,
    {
        Memory { data: copy_bytes(self.data.as_slice()), writable: self.writable }
    }
}

impl Memory {
    /// An empty writable container.
    pub fn new() -> (r: Self)
        ensures
            r@ == (MemoryView { data: Seq::<u8>::empty(), writable: true }),
    {
        let r = Self::with_capacity(0);
        assert(r@.data =~= Seq::<u8>::empty());
        r
    }

    /// A writable container of `capacity` zero bytes.
    pub fn with_capacity(capacity: usize) -> (r: Self)
        ensures
            r@ == (MemoryView { data: zeros(capacity as nat), writable: true }),
    {
        Memory { data: zero_bytes(capacity), writable: true }
    }

    /// A write-protected container of `capacity` zero bytes.
    pub fn rom(capacity: usize) -> (r: Self)
        ensures
            r@ == (MemoryView { data: zeros(capacity as nat), writable: false }),
    {
        Memory { data: zero_bytes(capacity), writable: false }
    }

    /// A write-protected container that holds `bytes`.
    pub fn rom_from_bytes(bytes: &[u8]) -> (r: Self)
        ensures
            r@ == (MemoryView { data: bytes@, writable: false }),
    {
        Memory { data: copy_bytes(bytes), writable: false }
    }

    /// A writable container of `capacity` zero bytes.
    pub fn ram(capacity: usize) -> (r: Self)
        ensures
            r@ == (MemoryView { data: zeros(capacity as nat), writable: true }),
    {
        Self::with_capacity(capacity)
    }

    /// A writable container that holds `bytes`.
    pub fn ram_from_bytes(bytes: &[u8]) -> (r: Self)
        ensures
            r@ == (MemoryView { data: bytes@, writable: true }),
    {
        Memory { data: copy_bytes(bytes), writable: true }
    }

    /// The capacity in bytes.
    pub fn len(&self) -> (n: usize)
        ensures
            n == self@.data.len(),
    {
        self.data.len()
    }

    /// Whether the capacity is zero.
    pub fn is_empty(&self) -> (b: bool)
        ensures
            b == (self@.data.len() == 0),
    {
        self.data.len() == 0
    }

    /// Whether writes go through.
    pub fn writable(&self) -> (b: bool)
        ensures
            b == self@.writable,
    {
        self.writable
    }

    /// Sets or lifts the write protection; the bytes stay.
    pub fn write_protect(&mut self, protect: bool)
        ensures
            final(self)@ == (MemoryView { writable: !protect, ..old(self)@ }),
    {
        self.writable = !protect;
    }

    /// The byte at `addr` modulo the capacity, without the `&mut` that the
    /// bus trait asks for.
    pub fn peek(&self, addr: usize) -> (value: u8)
        ensures
            value == self@.read(addr as int),
    {
        if self.data.len() > 0 {
            let a: usize = addr % self.data.len();
            self.data[a]
        } else {
            0
        }
    }
}

impl MemRead for Memory {
    fn read(&mut self, addr: usize) -> (value: u8)
        ensures
            value == old(self)@.read(addr as int),
            *final(self) == *old(self),
    {
        self.peek(addr)
    }
}

impl MemWrite for Memory {
    fn write(&mut self, addr: usize, value: u8)
        ensures
            final(self)@ == old(self)@.write(addr as int, value),
    {
        if self.data.len() > 0 {
            let a: usize = addr % self.data.len();
            if self.writable {
                self.data[a] = value;
            }
        }
    }
}

/// One address window of a banked container: the window starts at `addr`
/// and shows bank `bank_n`.
#[derive(Debug, Clone, Copy)]
pub struct Bank {
    pub addr: usize,
    pub bank_n: usize,
}

/// What a banked container holds.
pub struct BankableMemoryView {
    pub data: Seq<u8>,
    pub writable: bool,
    pub window: nat,
    pub banks: Seq<Bank>,
    pub bank_count: nat,
}

/// Whether the window that starts at `bank.addr` covers `addr`.
pub open spec fn covers(bank: Bank, window: nat, addr: int) -> bool {
    bank.addr <= addr < bank.addr + window
}

/// The index, from `i` on, of the first window that covers `addr`; the
/// number of windows when none does.
pub open spec fn find_window(banks: Seq<Bank>, window: nat, addr: int, i: int) -> int
    decreases banks.len() - i,
{
    if i < 0 || i >= banks.len() {
        banks.len() as int
    } else if covers(banks[i], window, addr) {
        i
    } else {
        find_window(banks, window, addr, i + 1)
    }
}

/// The index, from `i` on, of the first window that starts at `addr`; the
/// number of windows when none does.
pub open spec fn find_start(banks: Seq<Bank>, addr: int, i: int) -> int
    decreases banks.len() - i,
{
    if i < 0 || i >= banks.len() {
        banks.len() as int
    } else if banks[i].addr == addr {
        i
    } else {
        find_start(banks, addr, i + 1)
    }
}

/// The windows that `add_bank_range` lays from `addr` up to, not
/// including, `last`: one every `window` bytes, the `i`-th showing bank
/// `i` modulo `bank_count`.
pub open spec fn window_range(addr: int, last: int, window: nat, i: nat, bank_count: nat) -> Seq<
    Bank,
>
    decreases (if addr < last { last - addr } else { 0 }),
{
    if addr >= last || window == 0 || addr < 0 || bank_count == 0 {
        Seq::empty()
    } else {
        let rest = window_range(addr + window, last, window, i + 1, bank_count);
        seq![Bank { addr: addr as usize, bank_n: (i % bank_count) as usize }] + rest
    }
}

impl BankableMemoryView {
    /// A container of zero bytes for a request of `capacity` bytes, without
    /// windows.
    pub open spec fn fresh(capacity: nat, window: nat, writable: bool) -> BankableMemoryView {
        BankableMemoryView {
            data: zeros(banked_capacity(capacity, window)),
            writable,
            window,
            banks: Seq::<Bank>::empty(),
            bank_count: banked_count(capacity, window),
        }
    }

    /// A container over `bytes`, without windows.
    pub open spec fn over(bytes: Seq<u8>, window: nat, writable: bool) -> BankableMemoryView {
        BankableMemoryView {
            data: bytes,
            writable,
            window,
            banks: Seq::<Bank>::empty(),
            bank_count: banked_count(bytes.len(), window),
        }
    }

    /// The position in the backing array that `addr` is redirected to, when
    /// a window covers it.
    pub open spec fn locate(self, addr: int) -> Option<int> {
        let i = find_window(self.banks, self.window, addr, 0);
        if i < self.banks.len() {
            Some(self.banks[i].bank_n * self.window + (addr - self.banks[i].addr))
        } else {
            None
        }
    }

    /// The byte that a read at `addr` gives: that of the bank shown in the
    /// window that covers `addr`, 0 where no window covers it or the
    /// position lies outside the backing array.
    pub open spec fn read(self, addr: int) -> u8 {
        match self.locate(addr) {
            Some(p) => if p < self.data.len() {
                self.data[p]
            } else {
                0
            },
            None => 0,
        }
    }

    /// The container after a write at `addr`. The write is dropped where
    /// the container is write-protected, no window covers `addr`, or the
    /// position lies outside the backing array.
    pub open spec fn write(self, addr: int, value: u8) -> BankableMemoryView {
        match self.locate(addr) {
            Some(p) => if p < self.data.len() && self.writable {
                BankableMemoryView { data: self.data.update(p, value), ..self }
            } else {
                self
            },
            None => self,
        }
    }

    /// The container after `add_bank_range(first, last)`.
    pub open spec fn add_bank_range(self, first: int, last: int) -> BankableMemoryView {
        BankableMemoryView {
            banks: self.banks + window_range(first, last, self.window, 0, self.bank_count),
            ..self
        }
    }

    /// The container after `set_bank(addr, bank_n)`: the first window that
    /// starts at `addr` shows bank `bank_n` modulo the number of banks.
    pub open spec fn set_bank(self, addr: int, bank_n: int) -> BankableMemoryView {
        let i = find_start(self.banks, addr, 0);
        if i < self.banks.len() && self.bank_count > 0 {
            BankableMemoryView {
                banks: self.banks.update(
                    i,
                    Bank { addr: self.banks[i].addr, bank_n: (bank_n % (self.bank_count as int)) as usize },
                ),
                ..self
            }
        } else {
            self
        }
    }

    /// The index of the last bank; 0 for an empty container.
    pub open spec fn last_bank(self) -> nat {
        if self.bank_count == 0 {
            0
        } else {
            (self.bank_count - 1) as nat
        }
    }
}

/// The capacity that a banked container gets for a request of `capacity`
/// bytes: the request plus its remainder modulo the window, where that fits
/// the machine's word; else the request itself.
pub open spec fn banked_capacity(capacity: nat, window: nat) -> nat {
    if window == 0 || capacity + capacity % window > usize::MAX {
        capacity
    } else {
        capacity + capacity % window
    }
}

/// The number of banks of a container that was asked for with `capacity`
/// bytes: its capacity divided by the window, none with a window of 0.
pub open spec fn banked_count(capacity: nat, window: nat) -> nat {
    if window == 0 {
        0
    } else {
        banked_capacity(capacity, window) / window
    }
}

/// `banked_capacity`, computed.
pub fn rounded_capacity(capacity: usize, window: usize) -> (r: usize)
    ensures
        r == banked_capacity(capacity as nat, window as nat),
{
    if window == 0 {
        capacity
    } else {
        match capacity.checked_add(capacity % window) {
            Some(c) => c,
            None => capacity,
        }
    }
}

/// `banked_count`, computed.
pub fn rounded_count(capacity: usize, window: usize) -> (r: usize)
    ensures
        r == banked_count(capacity as nat, window as nat),
{
    if window == 0 {
        0
    } else {
        rounded_capacity(capacity, window) / window
    }
}

/// A byte array seen through address windows of `window` bytes, each of
/// which shows one bank of the array.
#[derive(Debug)]
pub struct BankableMemory {
    pub data: Vec<u8>,
    pub writable: bool,
    pub window: usize,
    pub banks: Vec<Bank>,
    pub bank_count: usize,
}

impl View for BankableMemory {
    type V = BankableMemoryView;

    open spec fn view(&self) -> BankableMemoryView {
        BankableMemoryView {
            data: self.data@,
            writable: self.writable,
            window: self.window as nat,
            banks: self.banks@,
            bank_count: self.bank_count as nat,
        }
    }
}

/// A copy of a list of windows.
pub fn copy_banks(src: &Vec<Bank>) -> (r: Vec<Bank>)
    ensures
        r@ == src@,
{
    let mut v: Vec<Bank> = Vec::new();
    let mut i: usize = 0;
    while i < src.len()
        invariant
            i <= src.len(),
            v@ == src@.subrange(0, i as int),
        decreases src.len() - i,
    {
        v.push(src[i]);
        i += 1;
    }
    assert(src@.subrange(0, src@.len() as int) == src@);
    v
}

impl Clone for BankableMemory {
    fn clone(&self) -> (r: Self)
        ensures
            r@ == self@,
    {
        BankableMemory {
            data: copy_bytes(self.data.as_slice()),
            writable: self.writable,
            window: self.window,
            banks: copy_banks(&self.banks),
            bank_count: self.bank_count,
        }
    }
}

impl BankableMemory {
    /// A writable banked container without windows. Its capacity is
    /// `banked_capacity(capacity, window)` zero bytes.
    pub fn with_capacity(capacity: usize, window: usize) -> (r: Self)
        ensures
            r@ == BankableMemoryView::fresh(capacity as nat, window as nat, true),
    {
        let banks: Vec<Bank> = Vec::new();
        assert(banks@ =~= Seq::<Bank>::empty());
        BankableMemory {
            data: zero_bytes(rounded_capacity(capacity, window)),
            writable: true,
            window,
            banks,
            bank_count: rounded_count(capacity, window),
        }
    }

    /// As `with_capacity`, write-protected.
    pub fn rom(capacity: usize, window: usize) -> (r: Self)
        ensures
            r@ == BankableMemoryView::fresh(capacity as nat, window as nat, false),
    {
        let mut rom = Self::with_capacity(capacity, window);
        rom.writable = false;
        rom
    }

    /// A write-protected banked container over `bytes`, without windows.
    pub fn rom_from_bytes(bytes: &[u8], window: usize) -> (r: Self)
        ensures
            r@ == BankableMemoryView::over(bytes@, window as nat, false),
    {
        let banks: Vec<Bank> = Vec::new();
        assert(banks@ =~= Seq::<Bank>::empty());
        BankableMemory {
            data: copy_bytes(bytes),
            writable: false,
            window,
            banks,
            bank_count: rounded_count(bytes.len(), window),
        }
    }

    /// As `with_capacity`.
    pub fn ram(capacity: usize, window: usize) -> (r: Self)
        ensures
            r@ == BankableMemoryView::fresh(capacity as nat, window as nat, true),
    {
        Self::with_capacity(capacity, window)
    }

    /// A writable banked container over `bytes`, without windows.
    pub fn ram_from_bytes(bytes: &[u8], window: usize) -> (r: Self)
        ensures
            r@ == BankableMemoryView::over(bytes@, window as nat, true),
    {
        let mut ram = Self::rom_from_bytes(bytes, window);
        ram.writable = true;
        ram
    }

    /// Lays windows over the addresses from `addr_first` up to, not
    /// including, `addr_last`. Nothing happens on a container without banks.
    pub fn add_bank_range(&mut self, addr_first: usize, addr_last: usize)
        ensures
            final(self)@ == old(self)@.add_bank_range(addr_first as int, addr_last as int),
    {
        if self.bank_count == 0 || self.window == 0 {
            assert(self.banks@ + Seq::<Bank>::empty() =~= self.banks@);
            return ;
        }
        let mut addr: usize = addr_first;
        let mut i: usize = 0;
        let ghost all = window_range(
            addr_first as int,
            addr_last as int,
            self.window as nat,
            0,
            self.bank_count as nat,
        );
        assert(self.banks@ + Seq::<Bank>::empty() =~= self.banks@);
        let mut done: bool = false;
        while !done && addr < addr_last
            invariant
                self.window == old(self).window,
                self.window > 0,
                self.bank_count == old(self).bank_count,
                self.bank_count > 0,
                self.data == old(self).data,
                self.writable == old(self).writable,
                addr_first + i <= addr,
                done ==> addr + self.window > usize::MAX,
                exists|done_part: Seq<Bank>|
                    #![trigger self.banks@ =~= old(self).banks@ + done_part]
                    self.banks@ == old(self).banks@ + done_part && all == done_part + (if done {
                        Seq::<Bank>::empty()
                    } else {
                        window_range(
                            addr as int,
                            addr_last as int,
                            self.window as nat,
                            i as nat,
                            self.bank_count as nat,
                        )
                    }),
            decreases (if done { 0int } else { 1int }), (if addr < addr_last { addr_last - addr } else { 0 }),
        {
            let ghost done_part = choose|done_part: Seq<Bank>|
                #![trigger self.banks@ =~= old(self).banks@ + done_part]
                self.banks@ == old(self).banks@ + done_part && all == done_part + window_range(
                    addr as int,
                    addr_last as int,
                    self.window as nat,
                    i as nat,
                    self.bank_count as nat,
                );
            let b = Bank { addr, bank_n: i % self.bank_count };
            self.banks.push(b);
            let ghost rest = window_range(
                addr + self.window,
                addr_last as int,
                self.window as nat,
                (i + 1) as nat,
                self.bank_count as nat,
            );
            proof {
                let next_part = done_part.push(b);
                assert(self.banks@ =~= old(self).banks@ + next_part);
                assert(all =~= next_part + rest);
            }
            match addr.checked_add(self.window) {
                Some(a) => {
                    addr = a;
                    i += 1;
                },
                None => {
                    done = true;
                    proof {
                        assert(rest =~= Seq::<Bank>::empty());
                    }
                },
            }
        }
        proof {
            let done_part = choose|done_part: Seq<Bank>|
                #![trigger self.banks@ =~= old(self).banks@ + done_part]
                self.banks@ == old(self).banks@ + done_part && all == done_part + (if done {
                    Seq::<Bank>::empty()
                } else {
                    window_range(
                        addr as int,
                        addr_last as int,
                        self.window as nat,
                        i as nat,
                        self.bank_count as nat,
                    )
                });
            assert(all =~= done_part);
        }
    }

    /// Shows bank `bank_n`, modulo the number of banks, in the first window
    /// that starts at `addr`. Nothing happens where no window starts there
    /// or the container has no banks.
    pub fn set_bank(&mut self, addr: usize, bank_n: usize)
        ensures
            final(self)@ == old(self)@.set_bank(addr as int, bank_n as int),
    {
        if self.bank_count == 0 {
            return ;
        }
        let mut i: usize = 0;
        while i < self.banks.len()
            invariant
                *self == *old(self),
                self.bank_count > 0,
                i <= self.banks.len(),
                find_start(self.banks@, addr as int, 0) == find_start(self.banks@, addr as int, i as int),
            decreases self.banks.len() - i,
        {
            if self.banks[i].addr == addr {
                let b = Bank { addr, bank_n: bank_n % self.bank_count };
                self.banks[i] = b;
                return ;
            }
            i += 1;
        }
    }

    /// The index of the last bank; 0 for a container without banks.
    pub fn last_bank(&self) -> (n: usize)
        ensures
            n == self@.last_bank(),
    {
        if self.bank_count == 0 {
            0
        } else {
            self.bank_count - 1
        }
    }

    /// The length of the backing array.
    pub fn len(&self) -> (n: usize)
        ensures
            n == self@.data.len(),
    {
        self.data.len()
    }

    /// Whether the backing array is empty.
    pub fn is_empty(&self) -> (b: bool)
        ensures
            b == (self@.data.len() == 0),
    {
        self.data.len() == 0
    }

    /// Whether writes go through.
    pub fn writable(&self) -> (b: bool)
        ensures
            b == self@.writable,
    {
        self.writable
    }

    /// Sets or lifts the write protection; bytes and windows stay.
    pub fn write_protect(&mut self, protect: bool)
        ensures
            final(self)@ == (BankableMemoryView { writable: !protect, ..old(self)@ }),
    {
        self.writable = !protect;
    }

    /// The position in the backing array that `addr` is redirected to, if a
    /// window covers it and the position fits the machine's word.
    fn position(&self, addr: usize) -> (p: Option<usize>)
        ensures
            p matches Some(x) ==> self@.locate(addr as int) == Some(x as int),
            p.is_none() ==> (match self@.locate(addr as int) {
                Some(q) => q > usize::MAX,
                None => true,
            }),
    {
        let mut i: usize = 0;
        while i < self.banks.len()
            invariant
                i <= self.banks.len(),
                find_window(self.banks@, self.window as nat, addr as int, 0) == find_window(
                    self.banks@,
                    self.window as nat,
                    addr as int,
                    i as int,
                ),
            decreases self.banks.len() - i,
        {
            let b = self.banks[i];
            if addr >= b.addr && addr - b.addr < self.window {
                let ghost q = b.bank_n * self.window + (addr - b.addr);
                assert(self@.locate(addr as int) == Some(q));
                return match b.bank_n.checked_mul(self.window) {
                    Some(base) => base.checked_add(addr - b.addr),
                    None => None,
                };
            }
            i += 1;
        }
        None
    }

    /// The byte that a read at `addr` gives, without the `&mut` that the bus
    /// trait asks for.
    pub fn peek(&self, addr: usize) -> (value: u8)
        ensures
            value == self@.read(addr as int),
    {
        let n: usize = self.data.len();
        match self.position(addr) {
            Some(p) => if p < n {
                self.data[p]
            } else {
                0
            },
            None => 0,
        }
    }
}

impl MemRead for BankableMemory {
    fn read(&mut self, addr: usize) -> (value: u8)
        ensures
            value == old(self)@.read(addr as int),
            *final(self) == *old(self),
    {
        self.peek(addr)
    }
}

impl MemWrite for BankableMemory {
    fn write(&mut self, addr: usize, value: u8)
        ensures
            final(self)@ == old(self)@.write(addr as int, value),
    {
        let n: usize = self.data.len();
        match self.position(addr) {
            Some(p) => {
                if p < n && self.writable {
                    self.data[p] = value;
                }
            },
            None => {},
        }
    }
}

} // verus!
