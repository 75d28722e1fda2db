//! COM class identifiers and their registry text form
//! `{XXXXXXXX-XXXX-XXXX-XXXX-XXXXXXXXXXXX}` (upper-case hex).
use vstd::prelude::*;

verus! {

/// A GUID in its four-field layout.
#[derive(Debug, Clone, Copy)]
pub struct Guid {
    pub data1: u32,
    pub data2: u16,
    pub data3: u16,
    pub data4: [u8; 8],
}

/// Friendly name shown in the Windows audio settings.
pub const APO_FRIENDLY_NAME: &'static str = "Phaselith Audio Enhancement";

/// The class identifier of the Phaselith audio processing object,
/// A1B2C3D4-E5F6-4A5B-9C8D-1E2F3A4B5C6D.
pub fn clsid_phaselith_apo() -> (g: Guid)
    ensures
        g.data1 == 0xA1B2C3D4u32,
        g.data2 == 0xE5F6u16,
        g.data3 == 0x4A5Bu16,
        g.data4@ == seq![0x9Cu8, 0x8Du8, 0x1Eu8, 0x2Fu8, 0x3Au8, 0x4Bu8, 0x5Cu8, 0x6Du8],
{
    let g = Guid {
        data1: 0xA1B2C3D4,
        data2: 0xE5F6,
        data3: 0x4A5B,
        data4: [0x9C, 0x8D, 0x1E, 0x2F, 0x3A, 0x4B, 0x5C, 0x6D],
    };
    assert(g.data4@ =~= seq![0x9Cu8, 0x8Du8, 0x1Eu8, 0x2Fu8, 0x3Au8, 0x4Bu8, 0x5Cu8, 0x6Du8]);
    g
}

/// The interface identifier of IUnknown,
/// 00000000-0000-0000-C000-000000000046.
pub fn iid_iunknown() -> (g: Guid)
    ensures
        g.data1 == 0,
        g.data2 == 0,
        g.data3 == 0,
        g.data4@ == seq![0xC0u8, 0u8, 0u8, 0u8, 0u8, 0u8, 0u8, 0x46u8],
{
    let g = Guid { data1: 0, data2: 0, data3: 0, data4: [0xC0, 0, 0, 0, 0, 0, 0, 0x46] };
    assert(g.data4@ =~= seq![0xC0u8, 0u8, 0u8, 0u8, 0u8, 0u8, 0u8, 0x46u8]);
    g
}

/// Whether two GUIDs are the same identifier (all fields equal).
pub open spec fn same_guid(a: Guid, b: Guid) -> bool {
    a.data1 == b.data1 && a.data2 == b.data2 && a.data3 == b.data3 && a.data4@ == b.data4@
}

/// Field-wise comparison of two GUIDs.
pub fn guid_eq(a: &Guid, b: &Guid) -> (r: bool)
    ensures
        r == same_guid(*a, *b),
{
    if a.data1 != b.data1 || a.data2 != b.data2 || a.data3 != b.data3 {
        return false;
    }
    let mut i: usize = 0;
    while i < 8
        invariant
            0 <= i <= 8,
            forall|j: int| 0 <= j < i ==> a.data4@[j] == b.data4@[j],
        decreases 8 - i,
    {
        if a.data4[i] != b.data4[i] {
            return false;
        }
        i = i + 1;
    }
    assert(a.data4@ =~= b.data4@);
    true
}

/// The ASCII code of an upper-case hex digit.
pub open spec fn hex_digit(n: int) -> u8 {
    if n < 10 { (48 + n) as u8 } else { (55 + n) as u8 }
}

/// `width` upper-case hex digits of `v`, most significant first.
pub open spec fn hex_digits(v: nat, width: nat) -> Seq<u8>
    decreases width,
{
    if width == 0 {
        seq![]
    } else {
        hex_digits(v / 16, (width - 1) as nat).push(hex_digit((v % 16) as int))
    }
}

/// The registry text form of a GUID.
pub open spec fn guid_text(g: Guid) -> Seq<u8> {
    seq![0x7Bu8]
        + hex_digits(g.data1 as nat, 8) + seq![0x2Du8]
        + hex_digits(g.data2 as nat, 4) + seq![0x2Du8]
        + hex_digits(g.data3 as nat, 4) + seq![0x2Du8]
        + hex_digits(g.data4[0] as nat, 2) + hex_digits(g.data4[1] as nat, 2) + seq![0x2Du8]
        + hex_digits(g.data4[2] as nat, 2) + hex_digits(g.data4[3] as nat, 2)
        + hex_digits(g.data4[4] as nat, 2) + hex_digits(g.data4[5] as nat, 2)
        + hex_digits(g.data4[6] as nat, 2) + hex_digits(g.data4[7] as nat, 2)
        + seq![0x7Du8]
}

fn push_hex(out: &mut Vec<u8>, v: u32, width: usize)
    requires
        width <= 8,
    ensures
        final(out)@ == old(out)@ + hex_digits(v as nat, width as nat),
    decreases width,
{
    if width == 0 {
        assert(hex_digits(v as nat, 0) =~= seq![]);
        assert(old(out)@ + seq![] =~= old(out)@);
        return;
    }
    push_hex(out, v / 16, width - 1);
    let d: u32 = v % 16;
    let c: u8 = if d < 10 { 48 + d as u8 } else { 55 + d as u8 };
    out.push(c);
    assert(out@ =~= old(out)@ + hex_digits(v as nat, width as nat));
}

/// The registry text form of a GUID, as ASCII bytes.
pub fn guid_to_string(g: &Guid) -> (r: Vec<u8>)
    ensures
        r@ == guid_text(*g),
        r@.len() == 38,
{
    let mut out: Vec<u8> = Vec::new();
    out.push(0x7B);
    push_hex(&mut out, g.data1, 8);
    out.push(0x2D);
    push_hex(&mut out, g.data2 as u32, 4);
    out.push(0x2D);
    push_hex(&mut out, g.data3 as u32, 4);
    out.push(0x2D);
    push_hex(&mut out, g.data4[0] as u32, 2);
    push_hex(&mut out, g.data4[1] as u32, 2);
    out.push(0x2D);
    push_hex(&mut out, g.data4[2] as u32, 2);
    push_hex(&mut out, g.data4[3] as u32, 2);
    push_hex(&mut out, g.data4[4] as u32, 2);
    push_hex(&mut out, g.data4[5] as u32, 2);
    push_hex(&mut out, g.data4[6] as u32, 2);
    push_hex(&mut out, g.data4[7] as u32, 2);
    out.push(0x7D);
    proof {
        lemma_hex_len(g.data1 as nat, 8);
        lemma_hex_len(g.data2 as nat, 4);
        lemma_hex_len(g.data3 as nat, 4);
        assert forall|i: int| 0 <= i < 8 implies #[trigger] hex_digits(g.data4[i] as nat, 2).len() == 2 by {
            lemma_hex_len(g.data4[i] as nat, 2);
        }
    }
    assert(out@ =~= guid_text(*g));
    out
}

proof fn lemma_hex_len(v: nat, width: nat)
    ensures
        hex_digits(v, width).len() == width,
    decreases width,
{
    if width > 0 {
        lemma_hex_len(v / 16, (width - 1) as nat);
    }
}

} // verus!
