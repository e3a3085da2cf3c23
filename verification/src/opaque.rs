use vstd::prelude::*;

use crate::codec::spec_u16_le;

verus! {

/// Most secured-message versions a version list is taken with.
pub const MAX_SECURE_SPDM_VERSION_COUNT: usize = 4;

/// Longest opaque data field.
pub const MAX_SPDM_OPAQUE_SIZE: usize = 1024;

/// Opaque data of a message.
pub struct SpdmOpaqueStruct {
    pub data: Vec<u8>,
}

/// The secured-message versions a requester lists in its opaque data: how
/// many it announced, and the major/minor byte of each of the first (at most
/// `MAX_SECURE_SPDM_VERSION_COUNT`) of them.
pub struct SecuredMessageVersionList {
    pub version_count: u8,
    pub versions_list: Vec<u8>,
}

/// The DSP0277 spec identifier that opens opaque data in format 0.
pub open spec fn spec_dmtf_spec_id() -> Seq<u8> {
    seq![0x46u8, 0x54u8, 0x4Du8, 0x44u8]
}

/// Where the elements of opaque data start, and how many there are; `None`
/// where the table header is missing or malformed.
pub open spec fn spec_opaque_table(o: Seq<u8>, fmt1: bool) -> Option<(int, int)> {
    if fmt1 {
        if o.len() >= 4 {
            Some((4, o[0] as int))
        } else {
            None
        }
    } else {
        if o.len() >= 8 && o.subrange(0, 4) == spec_dmtf_spec_id() && o[4] == 1 {
            Some((8, o[5] as int))
        } else {
            None
        }
    }
}

/// Number of padding bytes after an element of `size` bytes.
pub open spec fn spec_pad(size: int) -> int {
    (4 - size % 4) % 4
}

/// How many versions of an announced `count` are taken.
pub open spec fn spec_min_count(count: u8) -> nat {
    if count as int > MAX_SECURE_SPDM_VERSION_COUNT {
        MAX_SECURE_SPDM_VERSION_COUNT as nat
    } else {
        count as nat
    }
}

/// The version list carried by the element data `d`, if it is a DMTF
/// secured-message "supported versions" element.
pub open spec fn spec_version_list_element(d: Seq<u8>) -> Option<(u8, Seq<u8>)> {
    if d.len() >= 3 && d[0] == 1 && d[1] == 1 {
        let count = d[2];
        let n = if count as int > MAX_SECURE_SPDM_VERSION_COUNT {
            MAX_SECURE_SPDM_VERSION_COUNT as int
        } else {
            count as int
        };
        if 3 + 2 * n <= d.len() {
            Some((count, Seq::new(n as nat, |j: int| d[3 + 2 * j + 1])))
        } else {
            None
        }
    } else {
        None
    }
}

/// Searches the `remaining` elements from offset `p` for the supported
/// versions element of the DMTF registry.
pub open spec fn spec_find_version_list(o: Seq<u8>, p: int, remaining: int) -> Option<(u8, Seq<u8>)>
    decreases remaining,
{
    if remaining <= 0 || p < 0 || p + 2 > o.len() {
        None
    } else {
        let id = o[p];
        let vlen = o[p + 1] as int;
        if p + 4 + vlen > o.len() {
            None
        } else {
            let dlen = spec_u16_le(o[p + 2 + vlen], o[p + 3 + vlen]) as int;
            let q = p + 4 + vlen;
            if q + dlen > o.len() {
                None
            } else {
                let found = if id == 0 && vlen == 0 {
                    spec_version_list_element(o.subrange(q, q + dlen))
                } else {
                    None
                };
                if found is Some {
                    found
                } else {
                    let next = q + dlen + spec_pad(4 + vlen + dlen);
                    if next > o.len() {
                        None
                    } else {
                        spec_find_version_list(o, next, remaining - 1)
                    }
                }
            }
        }
    }
}

/// The secured-message version list in opaque data `o` of format 1 (`fmt1`)
/// or format 0.
pub open spec fn spec_supported_version_list(o: Seq<u8>, fmt1: bool) -> Option<(u8, Seq<u8>)> {
    match spec_opaque_table(o, fmt1) {
        None => None,
        Some((p, total)) => spec_find_version_list(o, p, total),
    }
}

/// The version list of a "supported versions" element.
fn read_version_list_element(o: &[u8], q: usize, dlen: usize) -> (r: Option<SecuredMessageVersionList>)
    requires
        q + dlen <= o@.len(),
    ensures
        r matches Some(l) ==> spec_version_list_element(o@.subrange(q as int, q + dlen)) == Some(
            (l.version_count, l.versions_list@),
        ) && l.versions_list@.len() == spec_min_count(l.version_count),
        r is None ==> spec_version_list_element(o@.subrange(q as int, q + dlen)) is None,
{
    let ghost d = o@.subrange(q as int, q + dlen);
    if dlen < 3 || o[q] != 1 || o[q + 1] != 1 {
        return None;
    }
    let count = o[q + 2];
    let n: usize = if count as usize > MAX_SECURE_SPDM_VERSION_COUNT {
        MAX_SECURE_SPDM_VERSION_COUNT
    } else {
        count as usize
    };
    if 3 + 2 * n > dlen {
        return None;
    }
    let olen = o.len();
    let mut versions: Vec<u8> = Vec::new();
    let mut j: usize = 0;
    assert(versions@ =~= Seq::new(0, |k: int| d[3 + 2 * k + 1]));
    while j < n
        invariant
            olen == o@.len(),
            j <= n,
            n <= MAX_SECURE_SPDM_VERSION_COUNT,
            3 + 2 * n <= dlen,
            q + dlen <= o@.len(),
            d == o@.subrange(q as int, q + dlen),
            versions@ == Seq::new(j as nat, |k: int| d[3 + 2 * k + 1]),
        decreases n - j,
    {
        versions.push(o[q + 3 + 2 * j + 1]);
        j = j + 1;
        assert(versions@ =~= Seq::new(j as nat, |k: int| d[3 + 2 * k + 1]));
    }
    Some(SecuredMessageVersionList { version_count: count, versions_list: versions })
}

/// Finds the secured-message version list a requester put in its opaque data.
pub fn get_supported_secure_spdm_version_list(o: &[u8], fmt1: bool) -> (r: Option<
    SecuredMessageVersionList,
>)
    ensures
        r matches Some(l) ==> spec_supported_version_list(o@, fmt1) == Some(
            (l.version_count, l.versions_list@),
        ) && l.versions_list@.len() == spec_min_count(l.version_count),
        r is None ==> spec_supported_version_list(o@, fmt1) is None,
{
    let len = o.len();
    let mut p: usize;
    let mut remaining: usize;
    if fmt1 {
        if len < 4 {
            return None;
        }
        p = 4;
        remaining = o[0] as usize;
    } else {
        if len < 8 || o[0] != 0x46 || o[1] != 0x54 || o[2] != 0x4D || o[3] != 0x44 || o[4] != 1 {
            proof {
                if len >= 8 && o@.subrange(0, 4) == spec_dmtf_spec_id() {
                    assert(o@[0] == o@.subrange(0, 4)[0]);
                    assert(o@[1] == o@.subrange(0, 4)[1]);
                    assert(o@[2] == o@.subrange(0, 4)[2]);
                    assert(o@[3] == o@.subrange(0, 4)[3]);
                }
            }
            return None;
        }
        assert(o@.subrange(0, 4) =~= spec_dmtf_spec_id());
        p = 8;
        remaining = o[5] as usize;
    }
    let ghost target = spec_supported_version_list(o@, fmt1);
    while remaining > 0
        invariant
            len == o@.len(),
            p <= len,
            target == spec_supported_version_list(o@, fmt1),
            target == spec_find_version_list(o@, p as int, remaining as int),
        decreases remaining,
    {
        if len - p < 2 {
            return None;
        }
        let id = o[p];
        let vlen = o[p + 1] as usize;
        if len - p < 4 + vlen {
            return None;
        }
        let dlen = o[p + 2 + vlen] as usize + 256 * (o[p + 3 + vlen] as usize);
        let q = p + 4 + vlen;
        if dlen > len - q {
            return None;
        }
        if id == 0 && vlen == 0 {
            let found = read_version_list_element(o, q, dlen);
            if found.is_some() {
                return found;
            }
        }
        let size = 4 + vlen + dlen;
        let pad = (4 - size % 4) % 4;
        if pad > len - (q + dlen) {
            return None;
        }
        p = q + dlen + pad;
        remaining = remaining - 1;
    }
    None
}

/// The last of the requester's versions, in its order, that the responder
/// also supports.
pub open spec fn spec_last_common_version(versions: Seq<u8>, local: Seq<u8>) -> Option<u8>
    decreases versions.len(),
{
    if versions.len() == 0 {
        None
    } else if local.contains(versions.last()) {
        Some(versions.last())
    } else {
        spec_last_common_version(versions.drop_last(), local)
    }
}

/// The selected secured-message version is the last version of the
/// requester's list `versions` that the responder's list `local` holds; there
/// is none exactly when the responder holds none of the listed versions.
pub proof fn lemma_last_common_version(versions: Seq<u8>, local: Seq<u8>)
    ensures
        spec_last_common_version(versions, local) matches Some(v) ==> exists|i: int|
            0 <= i < versions.len() && versions[i] == v && local.contains(v) && forall|j: int|
                i < j < versions.len() ==> !local.contains(#[trigger] versions[j]),
        spec_last_common_version(versions, local) is None <==> forall|i: int|
            0 <= i < versions.len() ==> !local.contains(#[trigger] versions[i]),
    decreases versions.len(),
{
    if versions.len() > 0 {
        let n = versions.len() - 1;
        lemma_last_common_version(versions.drop_last(), local);
        if local.contains(versions.last()) {
            assert(versions[n] == versions.last());
        } else {
            assert forall|j: int| 0 <= j < versions.drop_last().len() implies versions.drop_last()[j]
                == versions[j] by {}
            if spec_last_common_version(versions.drop_last(), local) is None {
                assert forall|i: int| 0 <= i < versions.len() implies !local.contains(
                    #[trigger] versions[i],
                ) by {
                    if i < n {
                        assert(versions.drop_last()[i] == versions[i]);
                    }
                }
            } else {
                let i = choose|i: int|
                    0 <= i < versions.drop_last().len() && versions.drop_last()[i]
                        == spec_last_common_version(versions.drop_last(), local).unwrap() && local.contains(
                        versions.drop_last()[i],
                    ) && forall|j: int|
                        i < j < versions.drop_last().len() ==> !local.contains(
                            #[trigger] versions.drop_last()[j],
                        );
                assert(versions[i] == versions.drop_last()[i]);
                assert forall|j: int| i < j < versions.len() implies !local.contains(
                    #[trigger] versions[j],
                ) by {
                    if j < n {
                        assert(versions.drop_last()[j] == versions[j]);
                    }
                }
                assert(!local.contains(versions[n]));
            }
        }
    }
}

/// The opaque data with which a responder announces the selected
/// secured-message version `version`, in format 1 (`fmt1`) or format 0.
pub open spec fn spec_version_selection(fmt1: bool, version: u8) -> Seq<u8> {
    if fmt1 {
        seq![
            0x01u8, 0x00u8, 0x00u8, 0x00u8,  // total elements, reserved
            0x00u8, 0x00u8, 0x04u8, 0x00u8,  // registry id, vendor length, data length
            0x01u8, 0x00u8, 0x00u8, version,  // data version, version selection, selected version
        ]
    } else {
        seq![
            0x46u8, 0x54u8, 0x4Du8, 0x44u8,  // spec id
            0x01u8, 0x01u8, 0x00u8, 0x00u8,  // opaque version, total elements, reserved
            0x00u8, 0x00u8, 0x04u8, 0x00u8,  // registry id, vendor length, data length
            0x01u8, 0x00u8, 0x00u8, version,  // data version, version selection, selected version
        ]
    }
}

/// Builds the version selection opaque data.
pub fn version_selection(fmt1: bool, version: u8) -> (r: Vec<u8>)
    ensures
        r@ == spec_version_selection(fmt1, version),
{
    let mut r = Vec::new();
    if !fmt1 {
        r.push(0x46);
        r.push(0x54);
        r.push(0x4D);
        r.push(0x44);
        r.push(0x01);
        r.push(0x01);
        r.push(0x00);
        r.push(0x00);
    } else {
        r.push(0x01);
        r.push(0x00);
        r.push(0x00);
        r.push(0x00);
    }
    r.push(0x00);
    r.push(0x00);
    r.push(0x04);
    r.push(0x00);
    r.push(0x01);
    r.push(0x00);
    r.push(0x00);
    r.push(version);
    assert(r@ =~= spec_version_selection(fmt1, version));
    r
}

} // verus!
