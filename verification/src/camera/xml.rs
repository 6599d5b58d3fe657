//! Retrieval of the `GenApi` XML file of a `USB3 Vision` device: the choice of the manifest
//! entry, the check of its SHA1 hash and the unpacking of a zipped file.

use vstd::prelude::*;

use sha1::Digest;
use std::io::Read;

use crate::bytes::{from_utf8_lossy, utf8_lossy};
use crate::common::{version_le, CompressionType, GenICamFileType, Version};
use crate::control::{
    answer_at, extends, read_answer, read_at, read_logged, AccessLog, ControlError, ControlResult,
    DeviceAccess, DeviceControl,
};

use super::registers::{answer_le32, answer_le64};
use crate::u3v::register_map::{compression_type_of, file_type_of, GenICamFileInfo};

use crate::u3v::register_map::{abrm, manifest_entry};

use super::u3v_register_map::{entry_addressable, file_version, Abrm, ManifestEntries, ManifestEntry};

verus! {

#[verifier::external_type_specification]
#[verifier::external_body]
#[verifier::reject_recursive_types(R)]
pub struct ExZipArchive<R>(zip::ZipArchive<R>);

#[verifier::external_type_specification]
#[verifier::external_body]
pub struct ExZipError(zip::result::ZipError);

#[verifier::external_type_specification]
#[verifier::external_body]
#[verifier::reject_recursive_types(T)]
pub struct ExCursor<T>(std::io::Cursor<T>);

/// What `ZipArchive::new` makes of `bytes`: `None` when they are no archive, else the data of
/// each file, `None` for a file that cannot be read.
pub uninterp spec fn zip_files(bytes: Seq<u8>) -> Option<Seq<Option<Seq<u8>>>>;

/// The files of an open archive, as [`zip_files`] describes them.
pub uninterp spec fn archive_files(z: zip::ZipArchive<std::io::Cursor<Vec<u8>>>) -> Seq<
    Option<Seq<u8>>,
>;

/// Calls `ZipArchive::new` on the bytes. It succeeds exactly on the bytes that
/// `zip_files` maps to some files, and the archive holds those files.
#[verifier::external_body]
fn zip_open(file: Vec<u8>) -> (r: Result<
    zip::ZipArchive<std::io::Cursor<Vec<u8>>>,
    zip::result::ZipError,
>)
    ensures
        r is Ok <==> zip_files(file@) is Some,
        r matches Ok(z) ==> zip_files(file@) == Some(archive_files(z)),
{
    zip::ZipArchive::new(std::io::Cursor::new(file))
}

/// Calls `ZipArchive::len`: the number of files.
#[verifier::external_body]
fn zip_len(z: &zip::ZipArchive<std::io::Cursor<Vec<u8>>>) -> (n: usize)
    ensures
        n == archive_files(*z).len(),
{
    z.len()
}

/// Calls `ZipArchive::by_index` and reads the file to its end. It gives the data of file `i`,
/// and `None` when there is no such file or it cannot be read; the archive's files stay the
/// same.
#[verifier::external_body]
fn zip_read(z: &mut zip::ZipArchive<std::io::Cursor<Vec<u8>>>, i: usize) -> (r: Option<Vec<u8>>)
    ensures
        archive_files(*final(z)) == archive_files(*old(z)),
        i >= archive_files(*old(z)).len() ==> r is None,
        i < archive_files(*old(z)).len() ==> match archive_files(*old(z))[i as int] {
            Some(d) => r matches Some(v) && v@ == d,
            None => r is None,
        },
{
    let mut file = z.by_index(i).ok()?;
    let mut xml = Vec::new();
    file.read_to_end(&mut xml).ok()?;
    Some(xml)
}

/// The SHA1 digest of `data`.
pub uninterp spec fn sha1_digest(data: Seq<u8>) -> Seq<u8>;

/// Calls `Sha1::digest` of the `sha1` crate.
#[verifier::external_body]
fn sha1(data: &[u8]) -> (d: [u8; 20])
    ensures
        d@ == sha1_digest(data@),
{
    sha1::Sha1::digest(data).into()
}

/// Whether `a` and `b` hold the same twenty bytes.
fn same_hash(a: &[u8; 20], b: &[u8; 20]) -> (r: bool)
    ensures
        r == (a@ == b@),
{
    let mut i: usize = 0;
    while i < 20
        invariant
            i <= 20,
            a@.len() == 20,
            b@.len() == 20,
            forall|j: int| 0 <= j < i ==> a@[j] == b@[j],
        decreases 20 - i,
    {
        if a[i] != b[i] {
            return false;
        }
        i = i + 1;
    }
    assert(a@ =~= b@);
    true
}

/// Checks an XML file against the hash of its manifest entry: without a hash it passes, with
/// one its SHA1 digest must equal it, else `InvalidDevice`.
pub fn check_xml_hash(xml: &[u8], hash: Option<[u8; 20]>) -> (r: ControlResult<()>)
    ensures
        match hash {
            None => r is Ok,
            Some(h) => if sha1_digest(xml@) == h@ {
                r is Ok
            } else {
                r matches Err(ControlError::InvalidDevice(_))
            },
        },
{
    match hash {
        None => Ok(()),
        Some(h) => {
            let digest = sha1(xml);
            if same_hash(&digest, &h) {
                Ok(())
            } else {
                Err(ControlError::InvalidDevice("sha1 of retrieved xml file isn't same as entry's hash"))
            }
        },
    }
}

/// What checking `xml` against the hash bytes `h` of a manifest entry gives: twenty zero
/// bytes mean no hash and pass; else the SHA1 digest of `xml` must equal them, or the result is
/// `InvalidDevice`.
pub open spec fn hash_checked(xml: Seq<u8>, h: Seq<u8>, r: ControlResult<()>) -> bool {
    if forall|i: int| 0 <= i < 20 ==> h[i] == 0 {
        r is Ok
    } else if sha1_digest(xml) == h {
        r is Ok
    } else {
        r matches Err(ControlError::InvalidDevice(_))
    }
}

/// Reads the hash of `ent` and checks `xml` against it as [`check_xml_hash`] does.
pub fn verify_xml<Ctrl: DeviceControl + ?Sized>(
    device: &mut Ctrl,
    xml: &[u8],
    ent: ManifestEntry,
) -> (r: ControlResult<()>)
    requires
        entry_addressable(ent.spec_addr()),
    ensures
        read_logged(old(device).accesses(), final(device).accesses(), (manifest_entry::SHA1_HASH.0 + ent.spec_addr()) as u64, 20),
        match read_answer(final(device).accesses()) { Ok(h) => hash_checked(xml@, h, r), Err(e) => r == Err::<(), ControlError>(e) },
{
    let hash = ent.sha1_hash(device)?;
    check_xml_hash(xml, hash)
}

/// What unpacking gives for an archive with `files`: the one file's data; more or fewer files,
/// or a file that cannot be read, are `InvalidDevice`.
pub open spec fn unzipped(files: Seq<Option<Seq<u8>>>, r: ControlResult<Vec<u8>>) -> bool {
    if files.len() != 1 {
        r matches Err(ControlError::InvalidDevice(_))
    } else {
        match files[0] {
            Some(d) => r matches Ok(x) && x@ == d,
            None => r matches Err(ControlError::InvalidDevice(_)),
        }
    }
}

/// Takes the single file out of an open archive.
pub fn unzip_archive(z: &mut zip::ZipArchive<std::io::Cursor<Vec<u8>>>) -> (r: ControlResult<
    Vec<u8>,
>)
    ensures
        unzipped(archive_files(*old(z)), r),
{
    if zip_len(z) != 1 {
        return Err(ControlError::InvalidDevice("zipped xml file is broken: more than one files in zipped GenApi XML"));
    }
    match zip_read(z, 0) {
        Some(xml) => Ok(xml),
        None => Err(ControlError::InvalidDevice("zipped xml file is broken")),
    }
}

/// Unpacks a zipped XML file, which must be a zip archive.
pub fn unzip_genxml(file: Vec<u8>) -> (r: ControlResult<Vec<u8>>)
    requires
        zip_files(file@) is Some,
    ensures
        unzipped(zip_files(file@)->Some_0, r),
{
    match zip_open(file) {
        Ok(mut z) => unzip_archive(&mut z),
        Err(_) => Err(ControlError::InvalidDevice("zipped xml file is broken")),
    }
}

/// Unpacks `file` as [`unzip_genxml`] does when it is a zip archive, and gives `None` when it
/// is not one.
pub fn try_unzip_genxml(file: Vec<u8>) -> (r: Option<ControlResult<Vec<u8>>>)
    ensures
        zip_files(file@) is None ==> r is None,
        zip_files(file@) matches Some(files) ==> (r matches Some(u) && unzipped(files, u)),
{
    let copy = file.clone();
    assert(copy@ =~= file@);
    match zip_open(copy) {
        Ok(_) => Some(unzip_genxml(file)),
        Err(_) => None,
    }
}

/// The XML text of a file: the file itself when uncompressed, else its unpacked single file;
/// decoded as UTF-8 with invalid sequences replaced.
pub fn xml_text(file: Vec<u8>, compression: CompressionType) -> (r: ControlResult<String>)
    requires
        compression == CompressionType::Zip ==> zip_files(file@) is Some,
    ensures
        compression == CompressionType::Uncompressed ==> (r matches Ok(s) && s@ == utf8_lossy(
            file@,
        )),
        compression == CompressionType::Zip ==> match zip_files(file@)->Some_0 {
            files => if files.len() == 1 && files[0] is Some {
                r matches Ok(s) && s@ == utf8_lossy(files[0]->Some_0)
            } else {
                r matches Err(ControlError::InvalidDevice(_))
            },
        },
{
    match compression {
        CompressionType::Zip => {
            let xml = unzip_genxml(file)?;
            Ok(from_utf8_lossy(xml.as_slice()))
        },
        CompressionType::Uncompressed => Ok(from_utf8_lossy(file.as_slice())),
    }
}

/// `b` is newer than `a`.
pub open spec fn version_newer(b: Version, a: Version) -> bool {
    !version_le(b, a)
}

/// The index of the newest of `versions`, the first one among equals.
pub fn newest_index(versions: &Vec<Version>) -> (r: Option<usize>)
    ensures
        versions@.len() == 0 <==> r is None,
        r matches Some(i) ==> {
            &&& i < versions@.len()
            &&& forall|j: int| 0 <= j < versions@.len() ==> version_le(versions@[j], versions@[i as int])
            &&& forall|j: int| 0 <= j < i ==> version_newer(versions@[i as int], versions@[j])
        },
{
    if versions.len() == 0 {
        return None;
    }
    let mut best: usize = 0;
    let mut k: usize = 1;
    while k < versions.len()
        invariant
            1 <= k <= versions@.len(),
            best < k,
            forall|j: int| 0 <= j < k ==> version_le(versions@[j], versions@[best as int]),
            forall|j: int| 0 <= j < best ==> version_newer(versions@[best as int], versions@[j]),
        decreases versions@.len() - k,
    {
        if !versions[k].le(&versions[best]) {
            best = k;
        }
        k = k + 1;
    }
    Some(best)
}

/// The text that the XML file `b` gives with `compression`, as [`decode_xml`] states it: `b`
/// decoded, or the one file of the zip archive `b` decoded; a zipped file that is no archive,
/// or whose archive does not hold exactly one readable file, is `InvalidDevice`.
pub open spec fn xml_decoded(b: Seq<u8>, compression: CompressionType, r: ControlResult<String>) -> bool {
    match compression {
        CompressionType::Uncompressed => r matches Ok(s) && s@ == utf8_lossy(b),
        CompressionType::Zip => match zip_files(b) {
            Some(files) => if files.len() == 1 && files[0] is Some {
                r matches Ok(s) && s@ == utf8_lossy(files[0]->Some_0)
            } else {
                r matches Err(ControlError::InvalidDevice(_))
            },
            None => r matches Err(ControlError::InvalidDevice(_)),
        },
    }
}

/// The XML text of a file, as [`xml_text`] gives it; a file marked zipped that is no zip
/// archive is refused with `InvalidDevice`.
pub fn decode_xml(file: Vec<u8>, compression: CompressionType) -> (r: ControlResult<String>)
    ensures
        xml_decoded(file@, compression, r),
{
    if compression == CompressionType::Zip {
        let copy = file.clone();
        assert(copy@ =~= file@);
        if zip_open(copy).is_err() {
            return Err(ControlError::InvalidDevice("zipped xml file is broken"));
        }
    }
    xml_text(file, compression)
}

/// `i` is the index of the newest of `vs`, the first one among equals.
pub open spec fn is_newest(vs: Seq<Version>, i: int) -> bool {
    &&& 0 <= i < vs.len()
    &&& forall|j: int| 0 <= j < vs.len() ==> version_le(vs[j], vs[i])
    &&& forall|j: int| 0 <= j < i ==> version_newer(vs[i], vs[j])
}

/// The file versions of the candidate entries.
pub open spec fn cand_versions(cands: Seq<(u64, Version, u32)>) -> Seq<Version> {
    Seq::new(cands.len(), |j: int| cands[j].1)
}

/// What going through the manifest entries `i..cnt`, the first entry at `base` and entries 64
/// bytes apart, does to the accesses of `log` from `pos` on, with the candidates `cands` found
/// so far (entry address, file version, file info). For each entry its file info is read, and
/// for a device XML its file version too, which makes it a candidate. An entry past the
/// address space, or with an unknown file type, ends it with `Err(None)` (`InvalidDevice`); a
/// failing read ends it with `Err(Some(e))`. The result is the position after the last access
/// and the candidates; `None` when `log` does not hold those reads.
pub open spec fn entry_scan(
    log: AccessLog,
    pos: int,
    base: u64,
    cnt: u64,
    i: int,
    cands: Seq<(u64, Version, u32)>,
) -> Option<(int, Result<Seq<(u64, Version, u32)>, Option<ControlError>>)>
    decreases cnt - i,
{
    if i < 0 || i >= cnt {
        Some((pos, Ok(cands)))
    } else if base + 64 * i > u64::MAX {
        Some((pos, Err(None)))
    } else {
        let e = (base + 64 * i) as u64;
        if e > u64::MAX - 0x2c {
            Some((pos, Err(None)))
        } else if !read_at(log, pos, (manifest_entry::FILE_FORMAT_INFO.0 + e) as u64, 4) {
            None
        } else {
            match answer_le32(answer_at(log, pos)) {
                Err(x) => Some((pos + 1, Err(Some(x)))),
                Ok(info) => match file_type_of(info) {
                    None => Some((pos + 1, Err(None))),
                    Some(t) => if t == GenICamFileType::DeviceXml {
                        if !read_at(
                            log,
                            pos + 1,
                            (manifest_entry::GENICAM_FILE_VERSION.0 + e) as u64,
                            4,
                        ) {
                            None
                        } else {
                            match answer_le32(answer_at(log, pos + 1)) {
                                Err(x) => Some((pos + 2, Err(Some(x)))),
                                Ok(v) => entry_scan(
                                    log,
                                    pos + 2,
                                    base,
                                    cnt,
                                    i + 1,
                                    cands.push((e, file_version(v), info)),
                                ),
                            }
                        }
                    } else {
                        entry_scan(log, pos + 1, base, cnt, i + 1, cands)
                    },
                },
            }
        }
    }
}

/// The scan of `g` from the start agrees with the scan from `pos`, entry `i` and candidates
/// `cands` on.
pub open spec fn scan_agrees(
    g: AccessLog,
    start: int,
    base: u64,
    cnt: u64,
    pos: int,
    i: int,
    cands: Seq<(u64, Version, u32)>,
) -> bool {
    entry_scan(g, start, base, cnt, 0, Seq::empty()) == entry_scan(g, pos, base, cnt, i, cands)
}

/// The hash bytes `h` of an entry let the file `b` pass: all zero, or its SHA1 digest.
pub open spec fn hash_passes(b: Seq<u8>, h: Seq<u8>) -> bool {
    (forall|i: int| 0 <= i < 20 ==> h[i] == 0) || sha1_digest(b) == h
}

/// What fetching the XML file of the candidate entry `cand` (address, version, file info)
/// does to the accesses of `log` from `p` on and gives: it reads the file address and the
/// file size; a size past `usize` or an unknown compression is `InvalidDevice`; it reads the
/// file there and the entry's hash; a file that does not pass the hash is `InvalidDevice`,
/// else the result is its text ([`xml_decoded`]). The first read that fails gives its error.
pub open spec fn xml_phase(log: AccessLog, p: int, cand: (u64, Version, u32), r: ControlResult<String>) -> bool {
    let e = cand.0;
    let info = cand.2;
    &&& read_at(log, p, (manifest_entry::REGISTER_ADDRESS.0 + e) as u64, 8)
    &&& match answer_le64(answer_at(log, p)) {
        Err(x) => log.len() == p + 1 && r == Err::<String, ControlError>(x),
        Ok(fa) => {
            &&& read_at(log, p + 1, (manifest_entry::FILE_SIZE.0 + e) as u64, 8)
            &&& match answer_le64(answer_at(log, p + 1)) {
                Err(x) => log.len() == p + 2 && r == Err::<String, ControlError>(x),
                Ok(fs) => if fs > usize::MAX || compression_type_of(info) is None {
                    log.len() == p + 2 && (r matches Err(ControlError::InvalidDevice(_)))
                } else {
                    &&& read_at(log, p + 2, fa, fs as nat)
                    &&& match answer_at(log, p + 2) {
                        Err(x) => log.len() == p + 3 && r == Err::<String, ControlError>(x),
                        Ok(b) => {
                            &&& read_at(log, p + 3, (manifest_entry::SHA1_HASH.0 + e) as u64, 20)
                            &&& log.len() == p + 4
                            &&& match answer_at(log, p + 3) {
                                Err(x) => r == Err::<String, ControlError>(x),
                                Ok(h) => if hash_passes(b, h) {
                                    xml_decoded(b, compression_type_of(info)->Some_0, r)
                                } else {
                                    r matches Err(ControlError::InvalidDevice(_))
                                },
                            }
                        },
                    }
                },
            }
        },
    }
}

/// What [`genapi`] does to the accesses of `log` from `n` on and gives: it reads the `ABRM`
/// capability, the manifest table address (an address past the space for the entry count is
/// `InvalidDevice`) and the entry count; it goes through the entries ([`entry_scan`]); without
/// a device XML entry it is `InvalidDevice`, else it fetches the file of the newest one, the
/// first among equals ([`xml_phase`]). The first read that fails gives its error.
pub open spec fn genapi_read(log: AccessLog, n: int, r: ControlResult<String>) -> bool {
    &&& read_at(log, n, abrm::DEVICE_CAPABILITY.0, 8)
    &&& match answer_at(log, n) {
        Err(x) => log.len() == n + 1 && r == Err::<String, ControlError>(x),
        Ok(_) => {
            &&& read_at(log, n + 1, abrm::MANIFEST_TABLE_ADDRESS.0, 8)
            &&& match answer_le64(answer_at(log, n + 1)) {
                Err(x) => log.len() == n + 2 && r == Err::<String, ControlError>(x),
                Ok(ta) => if ta > u64::MAX - 8 {
                    log.len() == n + 2 && (r matches Err(ControlError::InvalidDevice(_)))
                } else {
                    &&& read_at(log, n + 2, ta, 8)
                    &&& match answer_le64(answer_at(log, n + 2)) {
                        Err(x) => log.len() == n + 3 && r == Err::<String, ControlError>(x),
                        Ok(cnt) => match entry_scan(log, n + 3, (ta + 8) as u64, cnt, 0, Seq::empty()) {
                            None => false,
                            Some((p, Err(x))) => log.len() == p && match x {
                                Some(e) => r == Err::<String, ControlError>(e),
                                None => r matches Err(ControlError::InvalidDevice(_)),
                            },
                            Some((p, Ok(cands))) => if cands.len() == 0 {
                                log.len() == p && (r matches Err(ControlError::InvalidDevice(_)))
                            } else {
                                exists|i: int| #[trigger] is_newest(cand_versions(cands), i)
                                    && xml_phase(log, p, cands[i], r)
                            },
                        },
                    }
                },
            }
        },
    }
}

/// The scan of the entries of `g` from `start` ends at `p` and gives what `r` holds: the
/// candidate entries, their versions and file infos, or the error.
pub open spec fn scan_settled(
    g: AccessLog,
    start: int,
    base: u64,
    cnt: u64,
    p: int,
    r: ControlResult<(Vec<ManifestEntry>, Vec<Version>, Vec<GenICamFileInfo>)>,
) -> bool {
    entry_scan(g, start, base, cnt, 0, Seq::empty()) matches Some((q, res)) && q == p && match res {
        Ok(cs) => r matches Ok((c, v, f)) && c@.len() == cs.len() && v@.len() == cs.len()
            && f@.len() == cs.len() && forall|j: int|
            0 <= j < cs.len() ==> (#[trigger] c@[j]).spec_addr() == cs[j].0 && v@[j] == cs[j].1
                && f@[j].0 == cs[j].2 && entry_addressable(c@[j].spec_addr()),
        Err(Some(e)) => r == Err::<(Vec<ManifestEntry>, Vec<Version>, Vec<GenICamFileInfo>), ControlError>(e),
        Err(None) => r matches Err(ControlError::InvalidDevice(_)),
    }
}

/// Goes through the manifest entries of `entries`, from the first one, as [`entry_scan`]
/// states, and gives the device XML entries with their versions and file infos.
fn scan_manifest<Ctrl: DeviceControl + ?Sized>(device: &mut Ctrl, entries: ManifestEntries) -> (r:
    ControlResult<(Vec<ManifestEntry>, Vec<Version>, Vec<GenICamFileInfo>)>)
    requires
        entries.spec_index() == 0,
    ensures
        final(device).accesses().len() >= old(device).accesses().len(),
        final(device).accesses().take(old(device).accesses().len() as int) == old(
            device,
        ).accesses(),
        forall|g: AccessLog|
            extends(g, final(device).accesses()) ==> #[trigger] scan_settled(
                g,
                old(device).accesses().len() as int,
                entries.spec_first_entry_addr(),
                entries.spec_entry_num(),
                final(device).accesses().len() as int,
                r,
            ),
{
    let ghost l0 = device.accesses();
    let ghost start = l0.len() as int;
    let ghost base = entries.spec_first_entry_addr();
    let ghost cnt = entries.spec_entry_num();
    let ghost mut cands: Seq<(u64, Version, u32)> = Seq::empty();
    let mut it = entries;
    let mut candidates: Vec<ManifestEntry> = Vec::new();
    let mut versions: Vec<Version> = Vec::new();
    let mut infos: Vec<GenICamFileInfo> = Vec::new();
    proof {
        assert forall|g: AccessLog|
            extends(g, l0) implies #[trigger] scan_agrees(
            g,
            start,
            base,
            cnt,
            start,
            0,
            cands,
        ) by {}
    }
    loop
        invariant
            it.spec_first_entry_addr() == base,
            entries.spec_first_entry_addr() == base,
            it.spec_entry_num() == cnt,
            entries.spec_entry_num() == cnt,
            start == l0.len(),
            l0 == old(device).accesses(),
            device.accesses().len() >= start,
            device.accesses().take(start) == l0,
            candidates@.len() == cands.len(),
            versions@.len() == cands.len(),
            infos@.len() == cands.len(),
            forall|j: int|
                0 <= j < cands.len() ==> (#[trigger] candidates@[j]).spec_addr() == cands[j].0
                    && versions@[j] == cands[j].1 && infos@[j].0 == cands[j].2 && entry_addressable(
                    candidates@[j].spec_addr(),
                ),
            forall|g: AccessLog|
                extends(g, device.accesses()) ==> #[trigger] scan_agrees(
                    g,
                    start,
                    base,
                    cnt,
                    device.accesses().len() as int,
                    it.spec_index() as int,
                    cands,
                ),
        decreases it.spec_entry_num() - it.spec_index(),
    {
        let ghost l = device.accesses();
        let ghost pos = l.len() as int;
        let ghost i = it.spec_index() as int;
        if !it.can_advance() {
            let res: ControlResult<(Vec<ManifestEntry>, Vec<Version>, Vec<GenICamFileInfo>)> = Err(
                ControlError::InvalidDevice("manifest entry is out of the address space"),
            );
            proof {
                assert forall|g: AccessLog| extends(g, l) implies #[trigger] scan_settled(
                    g,
                    start,
                    base,
                    cnt,
                    pos,
                    res,
                ) by {
                    assert(scan_agrees(g, start, base, cnt, pos, i, cands));
                    assert(i < cnt);
                    assert(base + 64 * i > u64::MAX);
                    assert(entry_scan(g, pos, base, cnt, i, cands) == Some::<(int, Result<Seq<(u64, Version, u32)>, Option<ControlError>>)>((pos, Err(None))));
                }
            }
            return res;
        }
        let ent = match it.next() {
            Some(ent) => ent,
            None => {
                let res: ControlResult<(Vec<ManifestEntry>, Vec<Version>, Vec<GenICamFileInfo>)> = Ok(
                    (candidates, versions, infos),
                );
                proof {
                    assert forall|g: AccessLog| extends(g, l) implies #[trigger] scan_settled(
                        g,
                        start,
                        base,
                        cnt,
                        pos,
                        res,
                    ) by {
                        assert(scan_agrees(g, start, base, cnt, pos, i, cands));
                        assert(entry_scan(g, pos, base, cnt, i, cands) == Some::<(int, Result<Seq<(u64, Version, u32)>, Option<ControlError>>)>((pos, Ok(cands))));
                    }
                }
                return res;
            },
        };
        if ent.addr() > u64::MAX - 0x2c {
            proof {
                assert forall|g: AccessLog| extends(g, l) implies #[trigger] scan_settled(
                    g,
                    start,
                    base,
                    cnt,
                    pos,
                    Err::<(Vec<ManifestEntry>, Vec<Version>, Vec<GenICamFileInfo>), ControlError>(
                        ControlError::InvalidDevice("manifest entry is out of the address space"),
                    ),
                ) by {
                    assert(scan_agrees(g, start, base, cnt, pos, i, cands));
                }
            }
            return Err(ControlError::InvalidDevice("manifest entry is out of the address space"));
        }
        let file_info = match ent.file_info(device) {
            Ok(f) => f,
            Err(x) => {
                proof {
                    let f = device.accesses();
                    assert(f.take(start) =~= l0);
                    assert(f.take(pos) =~= l);
                    assert(f[pos] == f.last());
                    assert forall|g: AccessLog| extends(g, f) implies #[trigger] scan_settled(
                        g,
                        start,
                        base,
                        cnt,
                        f.len() as int,
                        Err::<(Vec<ManifestEntry>, Vec<Version>, Vec<GenICamFileInfo>), ControlError>(x),
                    ) by {
                        assert(extends(g, l));
                        assert(scan_agrees(g, start, base, cnt, pos, i, cands));
                        assert(g[pos] == f[pos]);
                    }
                }
                return Err(x);
            },
        };
        let ghost l1 = device.accesses();
        proof {
            assert(l1[pos] == l1.last());
            assert(l1.take(pos) =~= l);
        }
        let file_type = match file_info.file_type() {
            Ok(t) => t,
            Err(_) => {
                proof {
                    assert(l1.take(start) =~= l0);
                    assert forall|g: AccessLog| extends(g, l1) implies #[trigger] scan_settled(
                        g,
                        start,
                        base,
                        cnt,
                        l1.len() as int,
                        Err::<(Vec<ManifestEntry>, Vec<Version>, Vec<GenICamFileInfo>), ControlError>(
                            ControlError::InvalidDevice("invalid U3V GenICamFileType value"),
                        ),
                    ) by {
                        assert(extends(g, l));
                        assert(scan_agrees(g, start, base, cnt, pos, i, cands));
                        assert(g[pos] == l1[pos]);
                    }
                }
                return Err(ControlError::InvalidDevice("invalid U3V GenICamFileType value"));
            },
        };
        if file_type == GenICamFileType::DeviceXml {
            let version = match ent.genicam_file_version(device) {
                Ok(v) => v,
                Err(x) => {
                    proof {
                        let f = device.accesses();
                        assert(f.take(start) =~= l0);
                        assert(f.take(pos) =~= l);
                        assert(f[pos] == l1[pos]);
                        assert(f[pos + 1] == f.last());
                        assert forall|g: AccessLog| extends(g, f) implies #[trigger] scan_settled(
                            g,
                            start,
                            base,
                            cnt,
                            f.len() as int,
                            Err::<(Vec<ManifestEntry>, Vec<Version>, Vec<GenICamFileInfo>), ControlError>(x),
                        ) by {
                            assert(extends(g, l));
                            assert(scan_agrees(g, start, base, cnt, pos, i, cands));
                            assert(g[pos] == f[pos]);
                            assert(g[pos + 1] == f[pos + 1]);
                        }
                    }
                    return Err(x);
                },
            };
            let ghost l2 = device.accesses();
            proof {
                assert(l2[pos] == l1[pos]);
                assert(l2[pos + 1] == l2.last());
                let c2 = cands.push((ent.spec_addr(), version, file_info.0));
                assert forall|g: AccessLog|
                    extends(g, l2) implies #[trigger] scan_agrees(
                    g,
                    start,
                    base,
                    cnt,
                    l2.len() as int,
                    i + 1,
                    c2,
                ) by {
                    assert(extends(g, l));
                    assert(scan_agrees(g, start, base, cnt, pos, i, cands));
                    assert(g[pos] == l2[pos]);
                    assert(g[pos + 1] == l2[pos + 1]);
                }
                cands = c2;
            }
            let ghost cb = candidates@;
            let ghost vb = versions@;
            let ghost ib = infos@;
            candidates.push(ent);
            versions.push(version);
            infos.push(file_info);
            proof {
                assert forall|j: int| 0 <= j < cands.len() implies (#[trigger] candidates@[j]).spec_addr()
                    == cands[j].0 && versions@[j] == cands[j].1 && infos@[j].0 == cands[j].2
                    && entry_addressable(candidates@[j].spec_addr()) by {
                    if j < cb.len() {
                        assert(candidates@[j] == cb[j]);
                        assert(versions@[j] == vb[j]);
                        assert(infos@[j] == ib[j]);
                    }
                }
            }
        } else {
            proof {
                assert forall|g: AccessLog|
                    extends(g, l1) implies #[trigger] scan_agrees(
                    g,
                    start,
                    base,
                    cnt,
                    l1.len() as int,
                    i + 1,
                    cands,
                ) by {
                    assert(extends(g, l));
                    assert(scan_agrees(g, start, base, cnt, pos, i, cands));
                    assert(g[pos] == l1[pos]);
                }
            }
        }
        proof {
            assert(device.accesses().take(start) =~= l0);
        }
    }
}

/// Fetches the XML file of the manifest entry `ent` with file info `info`, as [`xml_phase`]
/// states.
fn fetch_xml<Ctrl: DeviceControl + ?Sized>(
    device: &mut Ctrl,
    ent: ManifestEntry,
    info: GenICamFileInfo,
    Ghost(version): Ghost<Version>,
) -> (r: ControlResult<String>)
    requires
        entry_addressable(ent.spec_addr()),
    ensures
        final(device).accesses().len() >= old(device).accesses().len(),
        final(device).accesses().take(old(device).accesses().len() as int) == old(
            device,
        ).accesses(),
        xml_phase(
            final(device).accesses(),
            old(device).accesses().len() as int,
            (ent.spec_addr(), version, info.0),
            r,
        ),
{
    let ghost l0 = device.accesses();
    let ghost p = l0.len() as int;
    let file_address = match ent.file_address(device) {
        Ok(a) => a,
        Err(x) => {
            assert(device.accesses().take(p) =~= l0);
            assert(device.accesses()[p] == device.accesses().last());
            return Err(x);
        },
    };
    let ghost l1 = device.accesses();
    assert(l1[p] == l1.last());
    let file_size = match ent.file_size(device) {
        Ok(s) => s,
        Err(x) => {
            assert(device.accesses().take(p) =~= l0);
            assert(device.accesses()[p] == l1[p]);
            assert(device.accesses()[p + 1] == device.accesses().last());
            return Err(x);
        },
    };
    let ghost l2 = device.accesses();
    assert(l2[p] == l1[p]);
    assert(l2[p + 1] == l2.last());
    assert(l2.take(p) =~= l0);
    if file_size > usize::MAX as u64 {
        return Err(ControlError::InvalidDevice("internal data has invalid num type"));
    }
    let compression = match info.compression_type() {
        Ok(c) => c,
        Err(_) => return Err(ControlError::InvalidDevice("invalid U3V GenICamFilFormat value")),
    };
    let mut buf: Vec<u8> = vec![0; file_size as usize];
    match device.read(file_address, buf.as_mut_slice()) {
        Ok(()) => {},
        Err(x) => {
            assert(device.accesses().take(p) =~= l0);
            assert(device.accesses()[p] == l2[p]);
            assert(device.accesses()[p + 1] == l2[p + 1]);
            assert(device.accesses()[p + 2] == device.accesses().last());
            return Err(x);
        },
    }
    let ghost l3 = device.accesses();
    assert(l3[p] == l2[p]);
    assert(l3[p + 1] == l2[p + 1]);
    assert(l3[p + 2] == l3.last());
    let res = verify_xml(device, buf.as_slice(), ent);
    let ghost l4 = device.accesses();
    proof {
        assert(l4.take(p) =~= l0);
        assert(l4[p] == l2[p]);
        assert(l4[p + 1] == l2[p + 1]);
        assert(l4[p + 2] == l3[p + 2]);
        assert(l4[p + 3] == l4.last());
        assert(answer_at(l4, p + 2) == Ok::<Seq<u8>, ControlError>(buf@));
    }
    match res {
        Ok(()) => {},
        Err(x) => return Err(x),
    }
    decode_xml(buf, compression)
}

/// Reads the `GenApi` XML file of a device, as [`genapi_read`] states: of the manifest entries
/// that describe a device XML, the one with the newest file version (the first among equals)
/// is read, checked against its hash, unpacked when zipped and decoded. A device without such
/// an entry is `InvalidDevice`.
pub fn genapi<Ctrl: DeviceControl + ?Sized>(device: &mut Ctrl) -> (r: ControlResult<String>)
    ensures
        final(device).accesses().take(old(device).accesses().len() as int) == old(
            device,
        ).accesses(),
        genapi_read(final(device).accesses(), old(device).accesses().len() as int, r),
{
    let ghost l0 = device.accesses();
    let ghost n = l0.len() as int;
    let abrm = match Abrm::new(device) {
        Ok(a) => a,
        Err(x) => {
            assert(device.accesses().take(n) =~= l0);
            assert(device.accesses()[n] == device.accesses().last());
            return Err(x);
        },
    };
    let ghost l1 = device.accesses();
    assert(l1[n] == l1.last());
    let table = match abrm.manifest_table(device) {
        Ok(t) => t,
        Err(x) => {
            assert(device.accesses().take(n) =~= l0);
            assert(device.accesses()[n] == l1[n]);
            assert(device.accesses()[n + 1] == device.accesses().last());
            return Err(x);
        },
    };
    let ghost l2 = device.accesses();
    assert(l2[n] == l1[n]);
    assert(l2[n + 1] == l2.last());
    assert(l2.take(n) =~= l0);
    if table.addr() > u64::MAX - 8 {
        return Err(ControlError::InvalidDevice("manifest table is out of the address space"));
    }
    let entries = match table.entries(device) {
        Ok(it) => it,
        Err(x) => {
            assert(device.accesses().take(n) =~= l0);
            assert(device.accesses()[n] == l2[n]);
            assert(device.accesses()[n + 1] == l2[n + 1]);
            assert(device.accesses()[n + 2] == device.accesses().last());
            return Err(x);
        },
    };
    let ghost l3 = device.accesses();
    let ghost base = entries.spec_first_entry_addr();
    let ghost cnt = entries.spec_entry_num();
    assert(l3[n] == l2[n]);
    assert(l3[n + 1] == l2[n + 1]);
    assert(l3[n + 2] == l3.last());
    assert(l3.take(n) =~= l0);
    let scanned = scan_manifest(device, entries);
    let ghost l4 = device.accesses();
    proof {
        assert(l4.take(n) =~= l0) by {
            assert(l4.take(n + 3) == l3);
            assert(l4.take(n) =~= l4.take(n + 3).take(n));
        }
        assert(l4[n] == l3[n]) by {
            assert(l4.take(n + 3) == l3);
            assert(l4.take(n + 3)[n] == l4[n]);
        }
        assert(l4[n + 1] == l3[n + 1]) by {
            assert(l4.take(n + 3) == l3);
            assert(l4.take(n + 3)[n + 1] == l4[n + 1]);
        }
        assert(l4[n + 2] == l3[n + 2]) by {
            assert(l4.take(n + 3) == l3);
            assert(l4.take(n + 3)[n + 2] == l4[n + 2]);
        }
    }
    proof {
        assert(l4.take(l4.len() as int) =~= l4);
        assert(scan_settled(l4, n + 3, base, cnt, l4.len() as int, scanned));
    }
    let (candidates, versions, infos) = match scanned {
        Ok(s) => s,
        Err(x) => return Err(x),
    };
    let ghost cands = match entry_scan(l4, n + 3, base, cnt, 0, Seq::empty()) {
        Some((_, Ok(cs))) => cs,
        _ => Seq::empty(),
    };
    let i = match newest_index(&versions) {
        Some(i) => i,
        None => return Err(ControlError::InvalidDevice("device doesn't have valid `ManifestEntry`")),
    };
    proof {
        assert forall|j: int| 0 <= j < versions@.len() implies versions@[j] == cand_versions(cands)[j] by {
            assert(candidates@[j].spec_addr() == cands[j].0);
        }
        assert(versions@ =~= cand_versions(cands));
        assert(is_newest(cand_versions(cands), i as int));
    }
    let r = fetch_xml(device, candidates[i], infos[i], Ghost(versions@[i as int]));
    proof {
        let f = device.accesses();
        let p = l4.len() as int;
        assert(f.take(p) == l4);
        assert(f.take(n) =~= l0) by {
            assert(f.take(n) =~= f.take(p).take(n));
        }
        assert(f[n] == l4[n]) by {
            assert(f.take(p)[n] == f[n]);
        }
        assert(f[n + 1] == l4[n + 1]) by {
            assert(f.take(p)[n + 1] == f[n + 1]);
        }
        assert(f[n + 2] == l4[n + 2]) by {
            assert(f.take(p)[n + 2] == f[n + 2]);
        }
        assert(scan_settled(f, n + 3, base, cnt, p, Ok::<(Vec<ManifestEntry>, Vec<Version>, Vec<GenICamFileInfo>), ControlError>((candidates, versions, infos))));
        assert(cands[i as int] == (candidates@[i as int].spec_addr(), versions@[i as int], infos@[i as int].0));
        assert(is_newest(cand_versions(cands), i as int) && xml_phase(f, p, cands[i as int], r));
        assert(answer_at(f, n) is Ok);
        assert(answer_le64(answer_at(f, n + 1)) == Ok::<u64, ControlError>(table.spec_addr()));
        assert(read_at(f, n + 2, table.spec_addr(), 8));
        assert(answer_le64(answer_at(f, n + 2)) == Ok::<u64, ControlError>(cnt));
        assert(base == (table.spec_addr() + 8) as u64);
        let cs2 = entry_scan(f, n + 3, base, cnt, 0, Seq::empty())->Some_0.1->Ok_0;
        assert(cs2.len() == cands.len());
        assert forall|j: int| 0 <= j < cands.len() implies cs2[j] == cands[j] by {
            assert(candidates@[j].spec_addr() == cands[j].0);
            assert(candidates@[j].spec_addr() == cs2[j].0);
        }
        assert(cs2 =~= cands);
    }
    r
}

} // verus!
