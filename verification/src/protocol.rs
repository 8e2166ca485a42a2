//! Wire protocol for the bus servos: checksums and frame layout.
//!
//! A frame is `[0xFF, 0xFF] + core + [checksum(core)]`, where `core`
//! starts with the device address and the checksum is the one's
//! complement of the low 8 bits of the sum of all core bytes.

use vstd::prelude::*;

verus! {

use vstd::arithmetic::div_mod::lemma_add_mod_noop;
use vstd::arithmetic::div_mod::lemma_mod_bound;
use vstd::arithmetic::div_mod::lemma_small_mod;
use vstd::assert_seqs_equal;

/// Marker byte; a frame starts with two of these.
pub const HEADER_BYTE: u8 = 0xFF;

/// Instruction: write registers of one device.
pub const INST_WRITE: u8 = 0x03;
/// Instruction: read registers of one device.
pub const INST_READ: u8 = 0x02;
/// Instruction: write the same registers of many devices in one frame.
pub const INST_SYNC_WRITE: u8 = 0x83;
/// Instruction: read the same registers of many devices in one frame.
pub const INST_SYNC_READ: u8 = 0x82;

/// Device address that every device on the bus answers to.
pub const BROADCAST_ID: u8 = 0xFE;

/// Sum of a byte sequence as an unbounded integer.
pub open spec fn byte_sum(s: Seq<u8>) -> int
    decreases s.len(),
{
    if s.len() == 0 {
        0
    } else {
        byte_sum(s.drop_last()) + s.last()
    }
}

/// The checksum of the bytes after the header: one's complement of the
/// low 8 bits of their sum.
pub open spec fn checksum_spec(s: Seq<u8>) -> u8 {
    (255 - byte_sum(s) % 256) as u8
}

pub proof fn lemma_byte_sum_nonneg(s: Seq<u8>)
    ensures
        byte_sum(s) >= 0,
    decreases s.len(),
{
    if s.len() > 0 {
        lemma_byte_sum_nonneg(s.drop_last());
    }
}

pub proof fn lemma_byte_sum_take_step(s: Seq<u8>, i: int)
    requires
        0 <= i < s.len(),
    ensures
        byte_sum(s.take(i + 1)) == byte_sum(s.take(i)) + s[i],
{
    assert_seqs_equal!(s.take(i + 1).drop_last() == s.take(i));
    assert(s.take(i + 1).last() == s[i]);
}

/// Compute the frame checksum of `data`, the bytes after the header.
pub fn compute_checksum(data: &[u8]) -> (r: u8)
    ensures
        r == checksum_spec(data@),
{
    let mut sum: u16 = 0;
    let mut i: usize = 0;
    proof {
        assert(data@.take(0) =~= Seq::<u8>::empty());
        lemma_small_mod(0nat, 256nat);
    }
    while i < data.len()
        invariant
            0 <= i <= data@.len(),
            sum < 256,
            sum == byte_sum(data@.take(i as int)) % 256,
        decreases data@.len() - i,
    {
        let b = data[i];
        proof {
            lemma_byte_sum_take_step(data@, i as int);
            lemma_byte_sum_nonneg(data@.take(i as int));
            lemma_add_mod_noop(byte_sum(data@.take(i as int)), b as int, 256);
            lemma_mod_bound(byte_sum(data@.take(i as int)) + b, 256);
            lemma_small_mod(b as nat, 256nat);
        }
        sum = (sum + b as u16) % 256;
        i = i + 1;
    }
    proof {
        assert(data@.take(data@.len() as int) =~= data@);
    }
    (255 - sum) as u8
}

/// The unsigned 16-bit image of a signed 16-bit value (two's complement).
pub open spec fn i16_as_u16_spec(v: i16) -> u16 {
    (if v >= 0 {
        v as int
    } else {
        v + 0x10000
    }) as u16
}

/// The signed value encoded by an unsigned 16-bit image.
pub open spec fn u16_as_i16_spec(u: u16) -> i16 {
    (if u < 0x8000 {
        u as int
    } else {
        u - 0x10000
    }) as i16
}

/// Little-endian encoding of a signed 16-bit value.
pub open spec fn i16_le_bytes_spec(v: i16) -> Seq<u8> {
    seq![(i16_as_u16_spec(v) % 256) as u8, (i16_as_u16_spec(v) / 256) as u8]
}

/// Decoding of two little-endian bytes as a signed 16-bit value.
pub open spec fn i16_from_le_bytes_spec(lo: u8, hi: u8) -> i16 {
    u16_as_i16_spec((lo + hi * 256) as u16)
}

pub proof fn lemma_i16_le_round_trip(v: i16)
    ensures
        i16_from_le_bytes_spec(i16_le_bytes_spec(v)[0], i16_le_bytes_spec(v)[1]) == v,
{
}

/// Append the little-endian bytes of `v` to `out`.
pub fn push_i16_le(out: &mut Vec<u8>, v: i16)
    ensures
        final(out)@ == old(out)@ + i16_le_bytes_spec(v),
{
    let u: u16 = if v >= 0 {
        v as u16
    } else {
        ((v as i32) + 0x10000) as u16
    };
    assert(u == i16_as_u16_spec(v));
    out.push((u % 256) as u8);
    out.push((u / 256) as u8);
    assert(out@ =~= old(out)@ + i16_le_bytes_spec(v));
}

/// Decode two little-endian bytes as a signed 16-bit value.
pub fn i16_from_le(lo: u8, hi: u8) -> (r: i16)
    ensures
        r == i16_from_le_bytes_spec(lo, hi),
{
    let u: u16 = lo as u16 + hi as u16 * 256;
    if u < 0x8000 {
        u as i16
    } else {
        ((u as i32) - 0x10000) as i16
    }
}

/// Append all of `data` to `out`.
pub fn push_slice(out: &mut Vec<u8>, data: &[u8])
    ensures
        final(out)@ == old(out)@ + data@,
{
    let mut i: usize = 0;
    while i < data.len()
        invariant
            0 <= i <= data@.len(),
            out@ == old(out)@ + data@.take(i as int),
        decreases data@.len() - i,
    {
        out.push(data[i]);
        proof {
            assert(old(out)@ + data@.take(i + 1) =~= (old(out)@ + data@.take(i as int)).push(
                data@[i as int],
            ));
        }
        i = i + 1;
    }
    proof {
        assert(data@.take(data@.len() as int) =~= data@);
    }
}

/// A complete frame around `core`, the bytes after the two-byte header.
pub open spec fn frame_spec(core: Seq<u8>) -> Seq<u8> {
    seq![HEADER_BYTE, HEADER_BYTE] + core + seq![checksum_spec(core)]
}

/// Core of a register-write frame for one device.
pub open spec fn write_register_core(id: u8, addr: u8, data: Seq<u8>) -> Seq<u8> {
    seq![id, (data.len() + 3) as u8, INST_WRITE, addr] + data
}

/// Build a register-write frame for one device.  The length byte
/// carries `data.len() + 3`, so up to 252 data bytes fit.
pub fn write_register_frame(id: u8, addr: u8, data: &[u8]) -> (r: Vec<u8>)
    requires
        data@.len() <= 252,
    ensures
        r@ == frame_spec(write_register_core(id, addr, data@)),
{
    let mut core: Vec<u8> = Vec::new();
    core.push(id);
    core.push((data.len() + 3) as u8);
    core.push(INST_WRITE);
    core.push(addr);
    push_slice(&mut core, data);
    proof {
        assert(core@ =~= write_register_core(id, addr, data@));
    }
    finish_frame(core)
}

/// Wrap `core` with the header and its checksum.
fn finish_frame(core: Vec<u8>) -> (r: Vec<u8>)
    ensures
        r@ == frame_spec(core@),
{
    let chk = compute_checksum(core.as_slice());
    let mut r: Vec<u8> = Vec::new();
    r.push(HEADER_BYTE);
    r.push(HEADER_BYTE);
    push_slice(&mut r, core.as_slice());
    r.push(chk);
    proof {
        assert(r@ =~= frame_spec(core@));
    }
    r
}

/// Per-device parameter bytes of a group write: address byte followed by
/// the little-endian value, for each device in order.
pub open spec fn sync_write_params(ids: Seq<u8>, vals: Seq<i16>) -> Seq<u8>
    recommends
        ids.len() == vals.len(),
    decreases ids.len(),
{
    if ids.len() == 0 || ids.len() != vals.len() {
        Seq::empty()
    } else {
        sync_write_params(ids.drop_last(), vals.drop_last()) + seq![ids.last()]
            + i16_le_bytes_spec(vals.last())
    }
}

pub proof fn lemma_sync_write_params_take_step(ids: Seq<u8>, vals: Seq<i16>, i: int)
    requires
        ids.len() == vals.len(),
        0 <= i < ids.len(),
    ensures
        sync_write_params(ids.take(i + 1), vals.take(i + 1)) == sync_write_params(
            ids.take(i),
            vals.take(i),
        ) + seq![ids[i]] + i16_le_bytes_spec(vals[i]),
{
    assert_seqs_equal!(ids.take(i + 1).drop_last() == ids.take(i));
    assert_seqs_equal!(vals.take(i + 1).drop_last() == vals.take(i));
    assert(ids.take(i + 1).last() == ids[i]);
    assert(vals.take(i + 1).last() == vals[i]);
}

/// Core of a group-write frame: one register of every listed device is
/// set in a single transaction.
pub open spec fn sync_write_core(addr: u8, ids: Seq<u8>, vals: Seq<i16>) -> Seq<u8> {
    seq![BROADCAST_ID, (3 * ids.len() + 4) as u8, INST_SYNC_WRITE, addr, 2u8]
        + sync_write_params(ids, vals)
}

/// Build a group-write frame carrying a 2-byte register value for every
/// listed device.
pub fn sync_write_frame(addr: u8, ids: &[u8], vals: &[i16]) -> (r: Vec<u8>)
    requires
        ids@.len() == vals@.len(),
        ids@.len() <= 83,
    ensures
        r@ == frame_spec(sync_write_core(addr, ids@, vals@)),
{
    let mut core: Vec<u8> = Vec::new();
    core.push(BROADCAST_ID);
    core.push((3 * ids.len() + 4) as u8);
    core.push(INST_SYNC_WRITE);
    core.push(addr);
    core.push(2u8);
    let ghost prefix: Seq<u8> = core@;
    let mut i: usize = 0;
    proof {
        assert(ids@.take(0) =~= Seq::<u8>::empty());
        assert(vals@.take(0) =~= Seq::<i16>::empty());
        assert(core@ =~= prefix + sync_write_params(ids@.take(0), vals@.take(0)));
    }
    while i < ids.len()
        invariant
            0 <= i <= ids@.len(),
            ids@.len() == vals@.len(),
            core@ == prefix + sync_write_params(ids@.take(i as int), vals@.take(i as int)),
        decreases ids@.len() - i,
    {
        core.push(ids[i]);
        push_i16_le(&mut core, vals[i]);
        proof {
            lemma_sync_write_params_take_step(ids@, vals@, i as int);
            assert(core@ =~= prefix + sync_write_params(ids@.take(i + 1), vals@.take(i + 1)));
        }
        i = i + 1;
    }
    proof {
        assert(ids@.take(ids@.len() as int) =~= ids@);
        assert(vals@.take(vals@.len() as int) =~= vals@);
        assert(core@ =~= sync_write_core(addr, ids@, vals@));
    }
    finish_frame(core)
}

/// Core of a group-read frame: ask every listed device for `data_len`
/// bytes starting at register `addr`.
pub open spec fn sync_read_core(addr: u8, data_len: u8, ids: Seq<u8>) -> Seq<u8> {
    seq![BROADCAST_ID, (ids.len() + 4) as u8, INST_SYNC_READ, addr, data_len] + ids
}

/// Build a group-read frame.
pub fn sync_read_frame(addr: u8, data_len: u8, ids: &[u8]) -> (r: Vec<u8>)
    requires
        ids@.len() <= 251,
    ensures
        r@ == frame_spec(sync_read_core(addr, data_len, ids@)),
{
    let mut core: Vec<u8> = Vec::new();
    core.push(BROADCAST_ID);
    core.push((ids.len() + 4) as u8);
    core.push(INST_SYNC_READ);
    core.push(addr);
    core.push(data_len);
    push_slice(&mut core, ids);
    proof {
        assert(core@ =~= sync_read_core(addr, data_len, ids@));
    }
    finish_frame(core)
}

/// A received frame is well formed when it carries the header and its
/// checksum matches its contents.
pub open spec fn frame_well_formed(f: Seq<u8>) -> bool {
    &&& f.len() >= 4
    &&& f[0] == HEADER_BYTE
    &&& f[1] == HEADER_BYTE
    &&& f.last() == checksum_spec(f.subrange(2, f.len() - 1))
}

/// Check a received frame: header present and checksum correct.  A frame
/// failing this is communication noise and must not be parsed further.
pub fn validate_frame(f: &[u8]) -> (r: bool)
    ensures
        r == frame_well_formed(f@),
{
    if f.len() < 4 {
        return false;
    }
    if f[0] != HEADER_BYTE || f[1] != HEADER_BYTE {
        return false;
    }
    let chk = compute_checksum(&f[2..f.len() - 1]);
    chk == f[f.len() - 1]
}

/// Every frame built around a core validates: encoding and checking the
/// checksum agree.
pub proof fn lemma_frame_round_trip(core: Seq<u8>)
    requires
        core.len() >= 1,
    ensures
        frame_well_formed(frame_spec(core)),
{
    let f = frame_spec(core);
    assert(f.subrange(2, f.len() - 1) =~= core);
}

pub proof fn lemma_byte_sum_update(s: Seq<u8>, i: int, b: u8)
    requires
        0 <= i < s.len(),
    ensures
        byte_sum(s.update(i, b)) == byte_sum(s) - s[i] + b,
    decreases s.len(),
{
    let t = s.update(i, b);
    if i == s.len() - 1 {
        assert_seqs_equal!(t.drop_last() == s.drop_last());
        assert(t.last() == b);
    } else {
        assert_seqs_equal!(t.drop_last() == s.drop_last().update(i, b));
        lemma_byte_sum_update(s.drop_last(), i, b);
        assert(t.last() == s.last());
    }
}

/// Two sums that differ by less than 256 but are unequal have different
/// low bytes, so their checksums differ.
proof fn lemma_checksum_differs(a: int, b: int)
    requires
        a >= 0,
        b >= 0,
        a != b,
        -256 < a - b < 256,
    ensures
        (255 - a % 256) as u8 != (255 - b % 256) as u8,
{
    lemma_mod_bound(a, 256);
    lemma_mod_bound(b, 256);
    if a % 256 == b % 256 {
        vstd::arithmetic::div_mod::lemma_fundamental_div_mod(a, 256);
        vstd::arithmetic::div_mod::lemma_fundamental_div_mod(b, 256);
        let qa = a / 256;
        let qb = b / 256;
        assert(a - b == 256 * (qa - qb));
        assert(qa == qb) by {
            if qa > qb {
                assert(256 * (qa - qb) >= 256) by (nonlinear_arith)
                    requires
                        qa - qb >= 1,
                ;
            }
            if qa < qb {
                assert(256 * (qa - qb) <= -256) by (nonlinear_arith)
                    requires
                        qa - qb <= -1,
                ;
            }
        }
        assert(false);
    }
}

/// Flipping any single byte of the frame body makes validation fail.
pub proof fn lemma_single_flip_detected(core: Seq<u8>, i: int, b: u8)
    requires
        0 <= i < core.len(),
        b != core[i],
    ensures
        !frame_well_formed(frame_spec(core).update(2 + i, b)),
{
    let f = frame_spec(core);
    let g = f.update(2 + i, b);
    assert(g.subrange(2, g.len() - 1) =~= core.update(i, b));
    lemma_byte_sum_update(core, i, b);
    lemma_byte_sum_nonneg(core);
    lemma_byte_sum_nonneg(core.update(i, b));
    lemma_checksum_differs(byte_sum(core), byte_sum(core.update(i, b)));
    assert(g.last() == f.last());
    assert(g.last() == checksum_spec(core));
    assert(checksum_spec(core) != checksum_spec(core.update(i, b)));
}

/// Flipping the checksum byte itself also makes validation fail.
pub proof fn lemma_checksum_flip_detected(core: Seq<u8>, b: u8)
    requires
        b != checksum_spec(core),
    ensures
        !frame_well_formed(frame_spec(core).update(frame_spec(core).len() - 1, b)),
{
    let f = frame_spec(core);
    let g = f.update(f.len() - 1, b);
    assert(g.subrange(2, g.len() - 1) =~= core);
    assert(g.last() == b);
}

/// Width in bytes of one device's slot in a group-read response:
/// header (2), id, length, error, `data_len` data bytes, checksum.
pub open spec fn response_slot(data_len: int) -> int {
    6 + data_len
}

/// A device's slot in a group-read response carries the header and a
/// checksum matching its contents; anything else is communication noise
/// and must not be parsed further.
pub open spec fn slot_valid(buf: Seq<u8>, base: int) -> bool {
    &&& buf[base] == HEADER_BYTE
    &&& buf[base + 1] == HEADER_BYTE
    &&& buf[base + 7] == checksum_spec(buf.subrange(base + 2, base + 7))
}

/// The value a group-read yields for device `i`: its two data bytes when
/// the response reaches that far and the slot passes its header and
/// checksum, and zero otherwise.
pub open spec fn sync_read_value(buf: Seq<u8>, n_read: int, i: int) -> i16 {
    if (i + 1) * response_slot(2) <= n_read && slot_valid(buf, i * response_slot(2)) {
        i16_from_le_bytes_spec(
            buf[i * response_slot(2) + 5],
            buf[i * response_slot(2) + 6],
        )
    } else {
        0
    }
}

/// Parse the concatenated per-device answers of a group read carrying a
/// 2-byte register each.  A response too short for a device yields a zero
/// reading for that device and all later ones, never a failure; a slot
/// failing its header or checksum is discarded as communication noise
/// and also reads zero.
pub fn parse_sync_read_response(buf: &[u8], bytes_read: usize, num_devices: usize) -> (r: Vec<
    i16,
>)
    requires
        bytes_read <= buf@.len(),
        num_devices * 8 <= usize::MAX,
    ensures
        r@.len() == num_devices,
        forall|i: int|
            0 <= i < num_devices ==> r@[i] == sync_read_value(buf@, bytes_read as int, i),
{
    let mut values: Vec<i16> = Vec::new();
    let mut dev: usize = 0;
    while dev < num_devices
        invariant
            0 <= dev <= num_devices,
            num_devices * 8 <= usize::MAX,
            bytes_read <= buf@.len(),
            values@.len() == dev,
            forall|i: int|
                0 <= i < dev ==> values@[i] == sync_read_value(buf@, bytes_read as int, i),
        decreases num_devices - dev,
    {
        proof {
            assert(dev * 8 <= num_devices * 8) by (nonlinear_arith)
                requires
                    0 <= dev < num_devices,
            ;
            assert((dev + 1) * 8 == dev * 8 + 8) by (nonlinear_arith);
        }
        let base = dev * 8;
        if base + 8 <= bytes_read {
            let chk = compute_checksum(&buf[base + 2..base + 7]);
            if buf[base] == HEADER_BYTE && buf[base + 1] == HEADER_BYTE && chk == buf[base + 7] {
                let v = i16_from_le(buf[base + 5], buf[base + 6]);
                values.push(v);
            } else {
                values.push(0i16);
            }
        } else {
            values.push(0i16);
        }
        dev = dev + 1;
    }
    values
}

} // verus!
