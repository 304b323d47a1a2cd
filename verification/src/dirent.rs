//! The buffer of a directory listing reply.
//!
//! Entries are appended one after the other, each padded with zero bytes to a multiple
//! of 8 bytes, until the next one would not fit in the size the kernel asked for.

use vstd::prelude::*;

use crate::abi::{FuseDirent, FuseDirentPlus};
use crate::data::{dirent_type, fuse_attr_from_attr, spec_dirent_type, spec_fuse_attr, FileAttr, FileType};
use crate::reply::{entry_out, spec_entry_out, Entry};
use crate::abi::{le_u32, le_u64};
use crate::request::{
    law_read_u32_at, law_read_u32_in_tail, law_read_u64_at, law_read_u64_in_tail, spec_read_u32, spec_read_u64,
};
use crate::time::Ttl;

verus! {

/// `n` rounded up to a multiple of 8.
pub open spec fn spec_padded(n: int) -> int {
    (n + 7) / 8 * 8
}

/// Appending the entry made of `head` and `name` to a listing `buf` limited to
/// `max_size` bytes: `(true, buf)` when the padded entry does not fit, else `false`
/// and the listing with the entry and its zero padding appended.
pub open spec fn spec_push(buf: Seq<u8>, max_size: int, head: Seq<u8>, name: Seq<u8>) -> (bool, Seq<u8>) {
    let entlen: int = head.len() as int + name.len() as int;
    let entsize = spec_padded(entlen);
    if buf.len() + entsize > max_size {
        (true, buf)
    } else {
        (false, buf + head + name + Seq::new((entsize - entlen) as nat, |i: int| 0u8))
    }
}

/// A directory listing under construction.
#[derive(Debug)]
pub struct EntListBuf {
    max_size: usize,
    buf: Vec<u8>,
}

impl EntListBuf {
    /// The listing never exceeds its size limit, and holds whole padded entries.
    #[verifier::type_invariant]
    closed spec fn inv(self) -> bool {
        &&& self.buf@.len() <= self.max_size
        &&& self.buf@.len() % 8 == 0
    }

    /// The bytes of the listing so far.
    pub closed spec fn bytes(&self) -> Seq<u8> {
        self.buf@
    }

    /// The size limit of the listing.
    pub closed spec fn max_size(&self) -> usize {
        self.max_size
    }

    /// An empty listing limited to `max_size` bytes.
    pub fn new(max_size: usize) -> (r: EntListBuf)
        ensures
            r.bytes() == Seq::<u8>::empty(),
            r.max_size() == max_size,
    {
        EntListBuf { max_size, buf: Vec::new() }
    }

    /// Add an entry to the directory reply buffer. Returns true if the buffer is full,
    /// in which case the entry is not added.
    pub fn push(&mut self, head: &[u8], name: &[u8]) -> (r: bool)
        ensures
            (r, final(self).bytes()) == spec_push(old(self).bytes(), old(self).max_size() as int, head@, name@),
            final(self).max_size() == old(self).max_size(),
    {
        proof {
            use_type_invariant(&*self);
        }
        let entlen = match head.len().checked_add(name.len()) {
            Some(n) => n,
            None => return true,
        };
        let rounded = match entlen.checked_add(7) {
            Some(n) => n,
            None => return true,
        };
        let entsize = rounded / 8 * 8;
        let total = match self.buf.len().checked_add(entsize) {
            Some(n) => n,
            None => return true,
        };
        if total > self.max_size {
            return true;
        }
        let padlen = entsize - entlen;
        let ghost before = self.buf@;
        let mut grown = Vec::new();
        std::mem::swap(&mut grown, &mut self.buf);
        crate::abi::push_bytes(&mut grown, head);
        crate::abi::push_bytes(&mut grown, name);
        let mut i: usize = 0;
        while i < padlen
            invariant
                i <= padlen,
                grown@ == before + head@ + name@ + Seq::new(i as nat, |k: int| 0u8),
            decreases padlen - i,
        {
            grown.push(0u8);
            i = i + 1;
            assert(grown@ =~= before + head@ + name@ + Seq::new(i as nat, |k: int| 0u8));
        }
        proof {
            lemma_padded(entlen as int);
        }
        assert(grown@.len() == before.len() + entsize);
        self.buf = grown;
        false
    }

    /// The listing's bytes, ending the construction.
    pub fn into_bytes(self) -> (r: Vec<u8>)
        ensures
            r@ == self.bytes(),
    {
        self.buf
    }
}

/// A listing only grows by whole padded entries and never beyond its limit: whatever
/// entry is pushed, the listing stays within `max_size` and a multiple of 8 bytes long.
pub proof fn law_listing_stays_bounded(buf: Seq<u8>, max_size: int, head: Seq<u8>, name: Seq<u8>)
    requires
        buf.len() <= max_size,
        buf.len() % 8 == 0,
    ensures
        spec_push(buf, max_size, head, name).1.len() <= max_size,
        spec_push(buf, max_size, head, name).1.len() % 8 == 0,
{
    let entlen: int = head.len() as int + name.len() as int;
    let entsize = spec_padded(entlen);
    lemma_padded(entlen);
    if buf.len() + entsize <= max_size {
        let pad = Seq::new((entsize - entlen) as nat, |i: int| 0u8);
        assert((buf + head + name + pad).len() == buf.len() + entsize);
        let b: int = buf.len() as int;
        assert((b + entsize) % 8 == 0) by (nonlinear_arith)
            requires
                b % 8 == 0,
                entsize % 8 == 0,
        ;
    }
}

/// `spec_padded(n)` is the multiple of 8 in `[n, n + 8)`.
proof fn lemma_padded(n: int)
    requires
        n >= 0,
    ensures
        spec_padded(n) % 8 == 0,
        n <= spec_padded(n) < n + 8,
{
    assert(spec_padded(n) % 8 == 0) by (nonlinear_arith);
    assert(n <= spec_padded(n) < n + 8) by (nonlinear_arith);
}

/// A push that reports a full listing leaves it unchanged; one that does not appends
/// exactly the entry, padded to the next multiple of 8 bytes.
pub proof fn law_push_appends_entry(buf: Seq<u8>, max_size: int, head: Seq<u8>, name: Seq<u8>)
    ensures
        spec_push(buf, max_size, head, name).0 ==> spec_push(buf, max_size, head, name).1 == buf,
        !spec_push(buf, max_size, head, name).0 ==> ({
            let out = spec_push(buf, max_size, head, name).1;
            let b: int = buf.len() as int;
            let h: int = head.len() as int;
            let n: int = name.len() as int;
            &&& out.subrange(0, b) == buf
            &&& out.subrange(b, b + h) == head
            &&& out.subrange(b + h, b + h + n) == name
            &&& out.len() - b == spec_padded(h + n)
        }),
{
    let b: int = buf.len() as int;
    let h: int = head.len() as int;
    let n: int = name.len() as int;
    lemma_padded(h + n);
    if !spec_push(buf, max_size, head, name).0 {
        let out = spec_push(buf, max_size, head, name).1;
        assert(out.subrange(0, b) =~= buf);
        assert(out.subrange(b, b + h) =~= head);
        assert(out.subrange(b + h, b + h + n) =~= name);
    }
}

/// The header of the directory entry for `ino` at `offset`, of type `kind`, whose name
/// is `namelen` bytes long.
pub open spec fn spec_dirent_head(ino: u64, offset: i64, namelen: u32, kind: FileType) -> Seq<u8> {
    FuseDirent { ino, off: offset, namelen, typ: spec_dirent_type(kind) }.spec_bytes()
}

/// Whether `h` is the header of the directory-plus entry for `ino` at `offset`, whose
/// name is `namelen` bytes long, looked up as `attr` with `generation`: the entry and
/// attribute validities are one time-to-live (the attribute validity zero under
/// `override_attr`), and the attributes are `attr` at some times.
pub open spec fn spec_plus_head(
    h: FuseDirentPlus,
    ino: u64,
    offset: i64,
    namelen: u32,
    generation: u64,
    override_attr: bool,
    ttl: Ttl,
    attr: FileAttr,
) -> bool {
    &&& h.dirent == FuseDirent { ino, off: offset, namelen, typ: spec_dirent_type(attr.kind) }
    &&& h.entry_out == spec_entry_out(
        ino,
        generation,
        (ttl.secs, ttl.nanos),
        override_attr,
        spec_fuse_attr(attr),
    )
}

/* ------ Listings from entry lists ------ */

/// Directory listing response data.
/// This structure holds the data for a single directory entry.
#[derive(Debug, Clone)]
pub struct DirEntryData {
    /// file inode number
    pub ino: u64,
    /// entry number in directory
    pub offset: i64,
    /// kind of file
    pub kind: FileType,
    /// name of file
    pub name: Vec<u8>,
}

/// Directory-plus listing response data: an entry and the looked-up file it names.
#[derive(Debug, Clone)]
pub struct DirEntryPlusData {
    /// The directory entry
    pub entry_data: DirEntryData,
    /// The file the entry names, with its time-to-live and generation
    pub attr_entry: Entry,
}

/// The listing `buf` limited to `max_size` bytes after pushing the entries `items`
/// (each a header and a name) in order, stopping at the first one that does not fit
/// or whose name is too long to count.
pub open spec fn spec_fill(buf: Seq<u8>, max_size: int, items: Seq<(Seq<u8>, Seq<u8>)>) -> Seq<u8>
    decreases items.len(),
{
    if items.len() == 0 {
        buf
    } else {
        let head = items[0].0;
        let name = items[0].1;
        if name.len() > u32::MAX {
            buf
        } else {
            let pushed = spec_push(buf, max_size, head, name);
            if pushed.0 {
                buf
            } else {
                spec_fill(pushed.1, max_size, items.drop_first())
            }
        }
    }
}

/// Filling a listing with any entries keeps it within its limit and made of whole
/// padded entries, and never takes anything away from it.
pub proof fn law_fill_stays_bounded(buf: Seq<u8>, max_size: int, items: Seq<(Seq<u8>, Seq<u8>)>)
    requires
        buf.len() <= max_size,
        buf.len() % 8 == 0,
    ensures
        spec_fill(buf, max_size, items).len() <= max_size,
        spec_fill(buf, max_size, items).len() % 8 == 0,
        spec_fill(buf, max_size, items).len() >= buf.len(),
        spec_fill(buf, max_size, items).subrange(0, buf.len() as int) == buf,
    decreases items.len(),
{
    if items.len() > 0 && items[0].1.len() <= u32::MAX {
        let pushed = spec_push(buf, max_size, items[0].0, items[0].1);
        if !pushed.0 {
            law_listing_stays_bounded(buf, max_size, items[0].0, items[0].1);
            law_push_appends_entry(buf, max_size, items[0].0, items[0].1);
            law_fill_stays_bounded(pushed.1, max_size, items.drop_first());
            let out = spec_fill(pushed.1, max_size, items.drop_first());
            assert(pushed.1.subrange(0, buf.len() as int) == buf);
            assert(out.subrange(0, buf.len() as int) =~= out.subrange(0, pushed.1.len() as int).subrange(0, buf.len() as int));
        }
    }
    assert(buf.subrange(0, buf.len() as int) =~= buf);
}

/// The header and name each directory entry contributes to a listing.
pub open spec fn spec_dir_items(entries: Seq<DirEntryData>) -> Seq<(Seq<u8>, Seq<u8>)> {
    entries.map_values(|e: DirEntryData| (
        spec_dirent_head(e.ino, e.offset, e.name@.len() as u32, e.kind),
        e.name@,
    ))
}

/// Push `items[i..]` onto `listing`, as `spec_fill` describes.
fn fill_from(listing: &mut EntListBuf, heads: &Vec<Vec<u8>>, names: &Vec<&[u8]>, Ghost(items): Ghost<Seq<(Seq<u8>, Seq<u8>)>>)
    requires
        heads@.len() == names@.len(),
        items.len() == heads@.len(),
        forall|k: int| 0 <= k < items.len() ==> #[trigger] items[k] == (heads@[k]@, names@[k]@),
    ensures
        final(listing).bytes() == spec_fill(old(listing).bytes(), old(listing).max_size() as int, items),
        final(listing).max_size() == old(listing).max_size(),
{
    let ghost max = listing.max_size() as int;
    let ghost target = spec_fill(listing.bytes(), max, items);
    let mut i: usize = 0;
    assert(items.subrange(0, items.len() as int) =~= items);
    while i < heads.len()
        invariant_except_break
            i <= heads@.len(),
            heads@.len() == names@.len(),
            items.len() == heads@.len(),
            forall|k: int| 0 <= k < items.len() ==> #[trigger] items[k] == (heads@[k]@, names@[k]@),
            listing.max_size() == max,
            spec_fill(listing.bytes(), max, items.subrange(i as int, items.len() as int)) == target,
        ensures
            listing.bytes() == target,
            listing.max_size() == max,
        decreases heads@.len() - i,
    {
        let ghost rest = items.subrange(i as int, items.len() as int);
        assert(rest[0] == items[i as int]);
        assert(rest.drop_first() =~= items.subrange(i + 1, items.len() as int));
        let name = names[i];
        if name.len() > u32::MAX as usize {
            break;
        }
        let full = listing.push(heads[i].as_slice(), name);
        if full {
            break;
        }
        i = i + 1;
    }
    proof {
        if i == heads@.len() {
            assert(items.subrange(i as int, items.len() as int).len() == 0);
        }
    }
}

/// The listing of at most `max_size` bytes made of `entries`, in order, up to the
/// first entry that does not fit.
pub fn dir_listing(entries: &[DirEntryData], max_size: usize) -> (r: Vec<u8>)
    ensures
        r@ == spec_fill(Seq::empty(), max_size as int, spec_dir_items(entries@)),
{
    let mut heads: Vec<Vec<u8>> = Vec::new();
    let mut names: Vec<&[u8]> = Vec::new();
    let mut i: usize = 0;
    while i < entries.len()
        invariant
            i <= entries@.len(),
            heads@.len() == i,
            names@.len() == i,
            forall|k: int| 0 <= k < i ==> #[trigger] spec_dir_items(entries@)[k] == (heads@[k]@, names@[k]@),
        decreases entries@.len() - i,
    {
        let e = &entries[i];
        let header = FuseDirent { ino: e.ino, off: e.offset, namelen: e.name.len() as u32, typ: dirent_type(e.kind) };
        heads.push(header.to_bytes());
        names.push(e.name.as_slice());
        i = i + 1;
    }
    let mut listing = EntListBuf::new(max_size);
    fill_from(&mut listing, &heads, &names, Ghost(spec_dir_items(entries@)));
    listing.into_bytes()
}

/// The header and name each directory-plus entry contributes to a listing, given the
/// entries' headers `heads`.
pub open spec fn spec_plus_items(entries: Seq<DirEntryPlusData>, heads: Seq<FuseDirentPlus>) -> Seq<(Seq<u8>, Seq<u8>)> {
    Seq::new(entries.len(), |k: int| (heads[k].spec_bytes(), entries[k].entry_data.name@))
}

/// Whether `heads` are headers of `entries`, one each: the entry and attribute
/// time-to-live are the entry's, and the attributes its file's (at some times).
pub open spec fn spec_plus_heads(entries: Seq<DirEntryPlusData>, heads: Seq<FuseDirentPlus>) -> bool {
    &&& heads.len() == entries.len()
    &&& forall|k: int| 0 <= k < entries.len() ==> #[trigger] spec_plus_head(
        heads[k],
        entries[k].entry_data.ino,
        entries[k].entry_data.offset,
        entries[k].entry_data.name@.len() as u32,
        entries[k].attr_entry.generation,
        false,
        entries[k].attr_entry.ttl,
        entries[k].attr_entry.attr,
    )
}

/// The listing of at most `max_size` bytes made of the directory-plus `entries`, in
/// order, up to the first entry that does not fit.
pub fn dirplus_listing(entries: &[DirEntryPlusData], max_size: usize) -> (r: Vec<u8>)
    ensures
        exists|heads: Seq<FuseDirentPlus>| #[trigger] spec_plus_heads(entries@, heads)
            && r@ == spec_fill(Seq::empty(), max_size as int, spec_plus_items(entries@, heads)),
{
    let mut heads: Vec<Vec<u8>> = Vec::new();
    let mut names: Vec<&[u8]> = Vec::new();
    let ghost mut plus: Seq<FuseDirentPlus> = Seq::empty();
    let mut i: usize = 0;
    while i < entries.len()
        invariant
            i <= entries@.len(),
            heads@.len() == i,
            names@.len() == i,
            plus.len() == i,
            forall|k: int| 0 <= k < i ==> #[trigger] spec_plus_head(
                plus[k],
                entries@[k].entry_data.ino,
                entries@[k].entry_data.offset,
                entries@[k].entry_data.name@.len() as u32,
                entries@[k].attr_entry.generation,
                false,
                entries@[k].attr_entry.ttl,
                entries@[k].attr_entry.attr,
            ),
            forall|k: int| 0 <= k < i ==> #[trigger] heads@[k]@ == plus[k].spec_bytes(),
            forall|k: int| 0 <= k < i ==> #[trigger] names@[k]@ == entries@[k].entry_data.name@,
        decreases entries@.len() - i,
    {
        let e = &entries[i];
        let ttl = &e.attr_entry.ttl;
        let attr = &e.attr_entry.attr;
        let fattr = fuse_attr_from_attr(attr);
        let header = FuseDirentPlus {
            entry_out: entry_out(
                e.entry_data.ino,
                e.attr_entry.generation,
                ttl.secs,
                ttl.nanos,
                false,
                fattr,
            ),
            dirent: FuseDirent {
                ino: e.entry_data.ino,
                off: e.entry_data.offset,
                namelen: e.entry_data.name.len() as u32,
                typ: dirent_type(attr.kind),
            },
        };
        assert(spec_plus_head(
            header,
            e.entry_data.ino,
            e.entry_data.offset,
            e.entry_data.name@.len() as u32,
            e.attr_entry.generation,
            false,
            *ttl,
            *attr,
        ));
        heads.push(header.to_bytes());
        names.push(e.entry_data.name.as_slice());
        proof {
            plus = plus.push(header);
        }
        i = i + 1;
    }
    let ghost items = spec_plus_items(entries@, plus);
    assert(forall|k: int| 0 <= k < items.len() ==> #[trigger] items[k] == (heads@[k]@, names@[k]@));
    let mut listing = EntListBuf::new(max_size);
    fill_from(&mut listing, &heads, &names, Ghost(items));
    assert(spec_plus_heads(entries@, plus));
    listing.into_bytes()
}


/// A directory entry header carries the inode, then the offset of the next entry
/// (two's complement), the name's length and the entry's `DT_*` type.
pub proof fn law_dirent_head_layout(ino: u64, offset: i64, namelen: u32, kind: FileType)
    ensures
        ({
            let h = spec_dirent_head(ino, offset, namelen, kind);
            &&& h.len() == 24
            &&& spec_read_u64(h, 0) == ino
            &&& spec_read_u64(h, 8) == offset as u64
            &&& spec_read_u32(h, 16) == namelen
            &&& spec_read_u32(h, 20) == spec_dirent_type(kind)
        }),
{
    let h = spec_dirent_head(ino, offset, namelen, kind);
    assert(h.subrange(0, 8) =~= le_u64(ino));
    law_read_u64_at(h, 0, ino);
    assert(h.subrange(8, 16) =~= le_u64(offset as u64));
    law_read_u64_at(h, 8, offset as u64);
    assert(h.subrange(16, 20) =~= le_u32(namelen));
    law_read_u32_at(h, 16, namelen);
    assert(h.subrange(20, 24) =~= le_u32(spec_dirent_type(kind)));
    law_read_u32_at(h, 20, spec_dirent_type(kind));
}

/// A directory-plus entry header carries the entry (the inode, the generation, the
/// entry validity, the attribute validity, zero under the override, with their
/// nanoseconds, and the attribute record of `attr`), then the directory entry: the
/// inode at 128, the offset of the next entry, the name's length and the type.
pub proof fn law_plus_head_layout(
    h: FuseDirentPlus,
    ino: u64,
    offset: i64,
    namelen: u32,
    generation: u64,
    override_attr: bool,
    ttl: Ttl,
    attr: FileAttr,
)
    requires
        spec_plus_head(h, ino, offset, namelen, generation, override_attr, ttl, attr),
    ensures
        ({
            let b = h.spec_bytes();
            &&& b.len() == 152
            &&& spec_read_u64(b, 0) == ino
            &&& spec_read_u64(b, 8) == generation
            &&& spec_read_u64(b, 16) == ttl.secs
            &&& spec_read_u64(b, 24) == if override_attr { 0 } else { ttl.secs }
            &&& spec_read_u32(b, 32) == ttl.nanos
            &&& spec_read_u32(b, 36) == if override_attr { 0 } else { ttl.nanos }
            &&& b.subrange(40, 128) == spec_fuse_attr(attr).spec_bytes()
            &&& spec_read_u64(b, 128) == ino
            &&& spec_read_u64(b, 136) == offset as u64
            &&& spec_read_u32(b, 144) == namelen
            &&& spec_read_u32(b, 148) == spec_dirent_type(attr.kind)
        }),
{
    let e = h.entry_out;
    let eb = e.spec_bytes();
    let d = h.dirent.spec_bytes();
    let b = h.spec_bytes();
    assert(b =~= eb + d);
    let pre = le_u64(e.nodeid) + le_u64(e.generation) + le_u64(e.entry_valid) + le_u64(e.attr_valid)
        + le_u32(e.entry_valid_nsec) + le_u32(e.attr_valid_nsec);
    assert(eb =~= pre + e.attr.spec_bytes());
    assert(eb.subrange(0, 8) =~= le_u64(e.nodeid));
    law_read_u64_at(eb, 0, e.nodeid);
    assert(eb.subrange(8, 16) =~= le_u64(e.generation));
    law_read_u64_at(eb, 8, e.generation);
    assert(eb.subrange(16, 24) =~= le_u64(e.entry_valid));
    law_read_u64_at(eb, 16, e.entry_valid);
    assert(eb.subrange(24, 32) =~= le_u64(e.attr_valid));
    law_read_u64_at(eb, 24, e.attr_valid);
    assert(eb.subrange(32, 36) =~= le_u32(e.entry_valid_nsec));
    law_read_u32_at(eb, 32, e.entry_valid_nsec);
    assert(eb.subrange(36, 40) =~= le_u32(e.attr_valid_nsec));
    law_read_u32_at(eb, 36, e.attr_valid_nsec);
    assert(eb.len() == 128);
    assert(b.subrange(0, 128) =~= eb);
    assert(b.subrange(40, 128) =~= e.attr.spec_bytes());
    assert(spec_read_u64(b, 0) == spec_read_u64(eb, 0)) by {
        assert(b[0] == eb[0] && b[1] == eb[1] && b[2] == eb[2] && b[3] == eb[3]);
        assert(b[4] == eb[4] && b[5] == eb[5] && b[6] == eb[6] && b[7] == eb[7]);
    }
    assert(spec_read_u64(b, 8) == spec_read_u64(eb, 8)) by {
        assert(b[8] == eb[8] && b[9] == eb[9] && b[10] == eb[10] && b[11] == eb[11]);
        assert(b[12] == eb[12] && b[13] == eb[13] && b[14] == eb[14] && b[15] == eb[15]);
    }
    assert(spec_read_u64(b, 16) == spec_read_u64(eb, 16)) by {
        assert(b[16] == eb[16] && b[17] == eb[17] && b[18] == eb[18] && b[19] == eb[19]);
        assert(b[20] == eb[20] && b[21] == eb[21] && b[22] == eb[22] && b[23] == eb[23]);
    }
    assert(spec_read_u64(b, 24) == spec_read_u64(eb, 24)) by {
        assert(b[24] == eb[24] && b[25] == eb[25] && b[26] == eb[26] && b[27] == eb[27]);
        assert(b[28] == eb[28] && b[29] == eb[29] && b[30] == eb[30] && b[31] == eb[31]);
    }
    assert(spec_read_u32(b, 32) == spec_read_u32(eb, 32)) by {
        assert(b[32] == eb[32] && b[33] == eb[33] && b[34] == eb[34] && b[35] == eb[35]);
    }
    assert(spec_read_u32(b, 36) == spec_read_u32(eb, 36)) by {
        assert(b[36] == eb[36] && b[37] == eb[37] && b[38] == eb[38] && b[39] == eb[39]);
    }
    law_dirent_head_layout(ino, offset, namelen, attr.kind);
    assert(d == spec_dirent_head(ino, offset, namelen, attr.kind));
    law_read_u64_in_tail(eb, d, 0);
    law_read_u64_in_tail(eb, d, 8);
    law_read_u32_in_tail(eb, d, 16);
    law_read_u32_in_tail(eb, d, 20);
}

} // verus!
