//! What holds of the published partition types: the literal tables and the
//! registry that they declare.

use vstd::prelude::*;
use crate::guid::{
    fits_at, fits_canonically_at, is_canonical_guid_text, is_canonical_prefix, is_guid_text,
};
use crate::laws::{is_well_formed, lemma_build_keeps, lemma_build_names_distinct};
use crate::model::{
    entries_of, group_position, guids_of, lemma_group_position, rows_view, EntryView,
};
use crate::registry::{declared, standard_registry};
use crate::system::System;
use crate::table::{
    Row, ANDROID_ARM, ANDROID_IA, APPLE, ATARITOS, CEPH, CHROMEOS, COREOS, FREEBSD, GENERAL, HAIKU,
    LINUX, MIDNIGHTBSD, NETBSD, ONIE, OPENBSD, QNX, SOLARIS, VMWARE, WINDOWS,
};

verus! {

/// The shape of a GUID text as the group of `system` spells it: canonical
/// everywhere but in the Linux group, whose texts are canonical up to their
/// 35th character and end there.
pub open spec fn is_published_text(system: Option<System>, text: Seq<char>) -> bool {
    if system == Some(System::Linux) {
        text.len() == 35 && is_canonical_prefix(text)
    } else {
        is_canonical_guid_text(text)
    }
}

/// Every GUID text of `table` has the shape that the group of `system`
/// spells.
pub open spec fn is_published_table(system: Option<System>, table: Seq<Row>) -> bool {
    &&& table.len() > 0
    &&& forall|i: int| 0 <= i < table.len() ==> is_published_text(system, (#[trigger] table[i]).1@)
}

/// The group of `system` has entries, and each GUID text has the shape that
/// the group spells.
pub open spec fn is_published_group(system: Option<System>, entries: Seq<EntryView>) -> bool {
    &&& entries.len() > 0
    &&& forall|i: int|
        0 <= i < entries.len() ==> is_published_text(system, (#[trigger] entries[i]).1)
}

/// A canonical GUID text is a GUID text.
pub proof fn lemma_canonical_is_guid_text(text: Seq<char>)
    requires
        is_canonical_guid_text(text),
    ensures
        is_guid_text(text),
{
    assert forall|i: int| 0 <= i < 36 implies #[trigger] fits_at(text, i) by {
        assert(fits_canonically_at(text, i));
    }
}

/// A table of well-shaped texts declares a group of well-shaped texts.
proof fn lemma_declared_group(system: Option<System>, table: Seq<Row>)
    requires
        is_published_table(system, table),
    ensures
        is_published_group(system, declared(system, table).entries),
{
    let rows = rows_view(table);
    let shaped = |e: EntryView| is_published_text(system, e.1);
    assert forall|k: int| 0 <= k < rows.len() implies shaped(#[trigger] rows[k]) by {
        assert(is_published_text(system, table[k].1@));
    }
    lemma_build_keeps(rows, shaped);
    let entries = declared(system, table).entries;
    assert forall|i: int| 0 <= i < entries.len() implies is_published_text(
        system,
        (#[trigger] entries[i]).1,
    ) by {
        assert(shaped(entries[i]));
    }
}

proof fn lemma_general_table()
    ensures
        is_published_table(None, GENERAL@),
{
    reveal_strlit("00000000-0000-0000-0000-000000000000");
    reveal_strlit("024DEE41-33E7-11D3-9D69-0008C781F39F");
    reveal_strlit("C12A7328-F81F-11D2-BA4B-00A0C93EC93B");
    reveal_strlit("21686148-6449-6E6F-744E-656564454649");
    reveal_strlit("D3BFE2DE-3DAF-11DF-BA40-E3A556D89593");
    reveal_strlit("F4019732-066E-4E12-8273-346C5641494F");
    reveal_strlit("BFBFAFE7-A34F-448A-9A5B-6213EB736C22");
}

proof fn lemma_windows_table()
    ensures
        is_published_table(Some(System::Windows), WINDOWS@),
{
    reveal_strlit("E3C9E316-0B5C-4DB8-817D-F92DF00215AE");
    reveal_strlit("EBD0A0A2-B9E5-4433-87C0-68B6B72699C7");
    reveal_strlit("5808C8AA-7E8F-42E0-85D2-E1E90434CFB3");
    reveal_strlit("AF9B60A0-1431-4F62-BC68-3311714A69AD");
    reveal_strlit("DE94BBA4-06D1-4D40-A16A-BFD50179D6AC");
    reveal_strlit("37AFFC90-EF7D-4E96-91C3-2D7AE055B174");
    reveal_strlit("E75CAF8F-F680-4CEE-AFA3-B001E56EFC2D");
    reveal_strlit("75894C1E-3AEB-11D3-B7C1-7B03A0000000");
    reveal_strlit("E2A1E728-32E3-11D6-A682-7B03A0000000");
}

proof fn lemma_linux_table()
    ensures
        is_published_table(Some(System::Linux), LINUX@),
{
    reveal_strlit("0FC63DAF-8483-4772-8E79-3D69D8477DE");
    reveal_strlit("A19D880F-05FC-4D3B-A006-743F0F84911");
    reveal_strlit("44479540-F297-41B2-9AF7-D131D5F0458");
    reveal_strlit("4F68BCE3-E8CD-4DB1-96E7-FBCAF984B70");
    reveal_strlit("69DAD710-2CE4-4E3C-B16C-21A1D49ABED");
    reveal_strlit("B921B045-1DF0-41C3-AF44-4C6F280D3FA");
    reveal_strlit("0657FD6D-A4AB-43C4-84E5-0933C84B4F4");
    reveal_strlit("E6D6D379-F507-44C2-A23C-238F2A3DF92");
    reveal_strlit("933AC7E1-2EB4-4F13-B844-0E14E2AEF91");
    reveal_strlit("3B8F8425-20E0-4F3B-907F-1A25A76F98E");
    reveal_strlit("7FFEC5C9-2D00-49B7-8941-3EA10A5586B");
    reveal_strlit("CA7D7CCB-63ED-4C53-861C-1742536059C");
    reveal_strlit("8DA63339-0007-60C0-C436-083AC823090");
}

proof fn lemma_freebsd_table()
    ensures
        is_published_table(Some(System::FreeBSD), FREEBSD@),
{
    reveal_strlit("83BD6B9D-7F41-11DC-BE0B-001560B84F0F");
    reveal_strlit("516E7CB4-6ECF-11D6-8FF8-00022D09712B");
    reveal_strlit("516E7CB5-6ECF-11D6-8FF8-00022D09712B");
    reveal_strlit("516E7CB6-6ECF-11D6-8FF8-00022D09712B");
    reveal_strlit("516E7CB8-6ECF-11D6-8FF8-00022D09712B");
    reveal_strlit("516E7CBA-6ECF-11D6-8FF8-00022D09712B");
}

proof fn lemma_apple_table()
    ensures
        is_published_table(Some(System::Apple), APPLE@),
{
    reveal_strlit("48465300-0000-11AA-AA11-00306543ECAC");
    reveal_strlit("7C3457EF-0000-11AA-AA11-00306543ECAC");
    reveal_strlit("55465300-0000-11AA-AA11-00306543ECAC");
    reveal_strlit("6A898CC3-1DD2-11B2-99A6-080020736631");
    reveal_strlit("52414944-0000-11AA-AA11-00306543ECAC");
    reveal_strlit("52414944-5F4F-11AA-AA11-00306543ECAC");
    reveal_strlit("426F6F74-0000-11AA-AA11-00306543ECAC");
    reveal_strlit("4C616265-6C00-11AA-AA11-00306543ECAC");
    reveal_strlit("5265636F-7665-11AA-AA11-00306543ECAC");
    reveal_strlit("53746F72-6167-11AA-AA11-00306543ECAC");
    reveal_strlit("B6FA30DA-92D2-4A9A-96F1-871EC6486200");
    reveal_strlit("2E313465-19B9-463F-8126-8A7993773801");
    reveal_strlit("FA709C7E-65B1-4593-BFD5-E71D61DE9B02");
    reveal_strlit("BBBA6DF5-F46F-4A89-8F59-8765B2727503");
}

proof fn lemma_solaris_table()
    ensures
        is_published_table(Some(System::Solaris), SOLARIS@),
{
    reveal_strlit("6A82CB45-1DD2-11B2-99A6-080020736631");
    reveal_strlit("6A85CF4D-1DD2-11B2-99A6-080020736631");
    reveal_strlit("6A87C46F-1DD2-11B2-99A6-080020736631");
    reveal_strlit("6A8B642B-1DD2-11B2-99A6-080020736631");
    reveal_strlit("6A898CC3-1DD2-11B2-99A6-080020736631");
    reveal_strlit("6A8EF2E9-1DD2-11B2-99A6-080020736631");
    reveal_strlit("6A90BA39-1DD2-11B2-99A6-080020736631");
    reveal_strlit("6A9283A5-1DD2-11B2-99A6-080020736631");
    reveal_strlit("6A945A3B-1DD2-11B2-99A6-080020736631");
    reveal_strlit("6A9630D1-1DD2-11B2-99A6-080020736631");
    reveal_strlit("6A980767-1DD2-11B2-99A6-080020736631");
    reveal_strlit("6A96237F-1DD2-11B2-99A6-080020736631");
    reveal_strlit("6A8D2AC7-1DD2-11B2-99A6-080020736631");
}

proof fn lemma_netbsd_table()
    ensures
        is_published_table(Some(System::NetBSD), NETBSD@),
{
    reveal_strlit("49F48D32-B10E-11DC-B99B-0019D1879648");
    reveal_strlit("49F48D5A-B10E-11DC-B99B-0019D1879648");
    reveal_strlit("49F48D82-B10E-11DC-B99B-0019D1879648");
    reveal_strlit("49F48DAA-B10E-11DC-B99B-0019D1879648");
    reveal_strlit("2DB519C4-B10F-11DC-B99B-0019D1879648");
    reveal_strlit("2DB519EC-B10F-11DC-B99B-0019D1879648");
}

proof fn lemma_chromeos_table()
    ensures
        is_published_table(Some(System::ChromeOS), CHROMEOS@),
{
    reveal_strlit("FE3A2A5D-4F32-41A7-B725-ACCC3285A309");
    reveal_strlit("3CB8E202-3B7E-47DD-8A3C-7FF2A13CFCEC");
    reveal_strlit("2E0A753D-9E48-43B0-8337-B15192CB1B5E");
}

proof fn lemma_coreos_table()
    ensures
        is_published_table(Some(System::CoreOS), COREOS@),
{
    reveal_strlit("5DFBF5F4-2848-4BAC-AA5E-0D9A20B745A6");
    reveal_strlit("3884DD41-8582-4404-B9A8-E9B84F2DF50E");
    reveal_strlit("C95DC21A-DF0E-4340-8D7B-26CBFA9A03E0");
    reveal_strlit("BE9067B9-EA49-4F15-B4F6-F36F8C9E1818");
}

proof fn lemma_haiku_table()
    ensures
        is_published_table(Some(System::Haiku), HAIKU@),
{
    reveal_strlit("42465331-3BA3-10F1-802A-4861696B7521");
}

proof fn lemma_midnightbsd_table()
    ensures
        is_published_table(Some(System::MidnightBSD), MIDNIGHTBSD@),
{
    reveal_strlit("85D5E45E-237C-11E1-B4B3-E89A8F7FC3A7");
    reveal_strlit("85D5E45A-237C-11E1-B4B3-E89A8F7FC3A7");
    reveal_strlit("85D5E45B-237C-11E1-B4B3-E89A8F7FC3A7");
    reveal_strlit("0394EF8B-237E-11E1-B4B3-E89A8F7FC3A7");
    reveal_strlit("85D5E45C-237C-11E1-B4B3-E89A8F7FC3A7");
    reveal_strlit("85D5E45D-237C-11E1-B4B3-E89A8F7FC3A7");
}

proof fn lemma_ceph_table()
    ensures
        is_published_table(Some(System::Ceph), CEPH@),
{
    reveal_strlit("45B0969E-9B03-4F30-B4C6-B4B80CEFF106");
    reveal_strlit("45B0969E-9B03-4F30-B4C6-5EC00CEFF106");
    reveal_strlit("4FBD7E29-9D25-41B8-AFD0-062C0CEFF05D");
    reveal_strlit("4FBD7E29-9D25-41B8-AFD0-5EC00CEFF05D");
    reveal_strlit("89C57F98-2FE5-4DC0-89C1-F3AD0CEFF2BE");
    reveal_strlit("89C57F98-2FE5-4DC0-89C1-5EC00CEFF2BE");
    reveal_strlit("CAFECAFE-9B03-4F30-B4C6-B4B80CEFF106");
    reveal_strlit("30CD0809-C2B2-499C-8879-2D6B78529876");
    reveal_strlit("5CE17FCE-4087-4169-B7FF-056CC58473F9");
    reveal_strlit("FB3AABF9-D25F-47CC-BF5E-721D1816496B");
    reveal_strlit("4FBD7E29-8AE0-4982-BF9D-5A8D867AF560");
    reveal_strlit("45B0969E-8AE0-4982-BF9D-5A8D867AF560");
    reveal_strlit("CAFECAFE-8AE0-4982-BF9D-5A8D867AF560");
    reveal_strlit("7F4A666A-16F3-47A2-8445-152EF4D03F6C");
    reveal_strlit("EC6D6385-E346-45DC-BE91-DA2A7C8B3261");
    reveal_strlit("01B41E1B-002A-453C-9F17-88793989FF8F");
    reveal_strlit("CAFECAFE-9B03-4F30-B4C6-5EC00CEFF106");
    reveal_strlit("93B0052D-02D9-4D8A-A43B-33A3EE4DFBC3");
    reveal_strlit("306E8683-4FE2-4330-B7C0-00A917C16966");
    reveal_strlit("45B0969E-9B03-4F30-B4C6-35865CEFF106");
    reveal_strlit("CAFECAFE-9B03-4F30-B4C6-35865CEFF106");
    reveal_strlit("166418DA-C469-4022-ADF4-B30AFD37F176");
    reveal_strlit("86A32090-3647-40B9-BBBD-38D8C573AA86");
    reveal_strlit("4FBD7E29-9D25-41B8-AFD0-35865CEFF05D");
}

proof fn lemma_openbsd_table()
    ensures
        is_published_table(Some(System::OpenBSD), OPENBSD@),
{
    reveal_strlit("824CC7A0-36A8-11E3-890A-952519AD3F61");
}

proof fn lemma_qnx_table()
    ensures
        is_published_table(Some(System::QNX), QNX@),
{
    reveal_strlit("CEF5A9AD-73BC-4601-89F3-CDEEEEE321A1");
}

proof fn lemma_vmware_table()
    ensures
        is_published_table(Some(System::VMware), VMWARE@),
{
    reveal_strlit("9D275380-40AD-11DB-BF97-000C2911D1B8");
    reveal_strlit("AA31E02A-400F-11DB-9590-000C2911D1B8");
    reveal_strlit("9198EFFC-31C0-11DB-8F78-000C2911D1B8");
}

proof fn lemma_android_ia_table()
    ensures
        is_published_table(Some(System::AndroidIA), ANDROID_IA@),
{
    reveal_strlit("2568845D-2332-4675-BC39-8FA5A4748D15");
    reveal_strlit("114EAFFE-1552-4022-B26E-9B053604CF84");
    reveal_strlit("49A4D17F-93A3-45C1-A0DE-F50B2EBE2599");
    reveal_strlit("4177C722-9E92-4AAB-8644-43502BFD5506");
    reveal_strlit("EF32A33B-A409-486C-9141-9FFB711F6266");
    reveal_strlit("20AC26BE-20B7-11E3-84C5-6CFDB94711E9");
    reveal_strlit("38F428E6-D326-425D-9140-6E0EA133647C");
    reveal_strlit("A893EF21-E428-470A-9E55-0668FD91A2D9");
    reveal_strlit("DC76DDA9-5AC1-491C-AF42-A82591580C0D");
    reveal_strlit("EBC597D0-2053-4B15-8B64-E0AAC75F4DB1");
    reveal_strlit("C5A0AEEC-13EA-11E5-A1B1-001E67CA0C3C");
    reveal_strlit("BD59408B-4514-490D-BF12-9878D963F378");
    reveal_strlit("8F68CC74-C5E5-48DA-BE91-A0C8C15E9C80");
    reveal_strlit("9FDAA6EF-4B3F-40D2-BA8D-BFF16BFB887B");
    reveal_strlit("767941D0-2085-11E3-AD3B-6CFDB94711E9");
    reveal_strlit("AC6D7924-EB71-4DF8-B48D-E267B27148FF");
}

proof fn lemma_android_arm_table()
    ensures
        is_published_table(Some(System::AndroidARM), ANDROID_ARM@),
{
    reveal_strlit("19A710A2-B3CA-11E4-B026-10604B889DCF");
    reveal_strlit("193D1EA4-B3CA-11E4-B075-10604B889DCF");
}

proof fn lemma_onie_table()
    ensures
        is_published_table(Some(System::ONIE), ONIE@),
{
    reveal_strlit("7412F7D5-A156-4B13-81DC-867174929325");
    reveal_strlit("D4E6E2CD-4469-46F3-B5CB-1BFF57AFC149");
}

proof fn lemma_ataritos_table()
    ensures
        is_published_table(Some(System::AtariTOS), ATARITOS@),
{
    reveal_strlit("734E5AFE-F61A-11E6-BC64-92361F002671");
}

/// Completeness of the published registry: every group selector (each
/// system, and `None` for the group without an owner) has exactly one group;
/// listing the group gives at least one entry; every GUID listed carries the
/// selector as its owner; and every GUID text listed is a GUID text in
/// canonical form, except in the Linux group, where each is such a text cut
/// off after its 35th character.
pub proof fn lemma_standard_registry_is_complete(system: Option<System>)
    ensures
        group_position(standard_registry(), system) matches Some(g) && forall|j: int|
            0 <= j < standard_registry().len() && (#[trigger] standard_registry()[j]).system
                == system ==> j == g,
        is_published_group(system, entries_of(standard_registry(), system)),
        guids_of(standard_registry(), system).len() > 0,
        forall|i: int|
            0 <= i < guids_of(standard_registry(), system).len() ==> {
                let guid = (#[trigger] guids_of(standard_registry(), system)[i]).1;
                &&& guid.system == system
                &&& is_published_text(system, guid.text)
                &&& system != Some(System::Linux) ==> is_guid_text(guid.text)
            },
{
    let groups = standard_registry();
    lemma_group_position(groups, system);
    match system {
        None => {
            lemma_general_table();
            lemma_declared_group(system, GENERAL@);
            assert(groups[0] == declared(system, GENERAL@));
        },
        Some(System::Windows) => {
            lemma_windows_table();
            lemma_declared_group(system, WINDOWS@);
            assert(groups[1] == declared(system, WINDOWS@));
        },
        Some(System::Linux) => {
            lemma_linux_table();
            lemma_declared_group(system, LINUX@);
            assert(groups[2] == declared(system, LINUX@));
        },
        Some(System::FreeBSD) => {
            lemma_freebsd_table();
            lemma_declared_group(system, FREEBSD@);
            assert(groups[3] == declared(system, FREEBSD@));
        },
        Some(System::Apple) => {
            lemma_apple_table();
            lemma_declared_group(system, APPLE@);
            assert(groups[4] == declared(system, APPLE@));
        },
        Some(System::Solaris) => {
            lemma_solaris_table();
            lemma_declared_group(system, SOLARIS@);
            assert(groups[5] == declared(system, SOLARIS@));
        },
        Some(System::NetBSD) => {
            lemma_netbsd_table();
            lemma_declared_group(system, NETBSD@);
            assert(groups[6] == declared(system, NETBSD@));
        },
        Some(System::ChromeOS) => {
            lemma_chromeos_table();
            lemma_declared_group(system, CHROMEOS@);
            assert(groups[7] == declared(system, CHROMEOS@));
        },
        Some(System::CoreOS) => {
            lemma_coreos_table();
            lemma_declared_group(system, COREOS@);
            assert(groups[8] == declared(system, COREOS@));
        },
        Some(System::Haiku) => {
            lemma_haiku_table();
            lemma_declared_group(system, HAIKU@);
            assert(groups[9] == declared(system, HAIKU@));
        },
        Some(System::MidnightBSD) => {
            lemma_midnightbsd_table();
            lemma_declared_group(system, MIDNIGHTBSD@);
            assert(groups[10] == declared(system, MIDNIGHTBSD@));
        },
        Some(System::Ceph) => {
            lemma_ceph_table();
            lemma_declared_group(system, CEPH@);
            assert(groups[11] == declared(system, CEPH@));
        },
        Some(System::OpenBSD) => {
            lemma_openbsd_table();
            lemma_declared_group(system, OPENBSD@);
            assert(groups[12] == declared(system, OPENBSD@));
        },
        Some(System::QNX) => {
            lemma_qnx_table();
            lemma_declared_group(system, QNX@);
            assert(groups[13] == declared(system, QNX@));
        },
        Some(System::VMware) => {
            lemma_vmware_table();
            lemma_declared_group(system, VMWARE@);
            assert(groups[14] == declared(system, VMWARE@));
        },
        Some(System::AndroidIA) => {
            lemma_android_ia_table();
            lemma_declared_group(system, ANDROID_IA@);
            assert(groups[15] == declared(system, ANDROID_IA@));
        },
        Some(System::AndroidARM) => {
            lemma_android_arm_table();
            lemma_declared_group(system, ANDROID_ARM@);
            assert(groups[16] == declared(system, ANDROID_ARM@));
        },
        Some(System::ONIE) => {
            lemma_onie_table();
            lemma_declared_group(system, ONIE@);
            assert(groups[17] == declared(system, ONIE@));
        },
        Some(System::AtariTOS) => {
            lemma_ataritos_table();
            lemma_declared_group(system, ATARITOS@);
            assert(groups[18] == declared(system, ATARITOS@));
        },
    }
    let entries = entries_of(groups, system);
    let listed = guids_of(groups, system);
    assert forall|i: int| 0 <= i < listed.len() implies {
        let guid = (#[trigger] listed[i]).1;
        &&& guid.system == system
        &&& is_published_text(system, guid.text)
        &&& system != Some(System::Linux) ==> is_guid_text(guid.text)
    } by {
        assert(is_published_text(system, entries[i].1));
        if system != Some(System::Linux) {
            lemma_canonical_is_guid_text(entries[i].1);
        }
    }
}

/// The published registry is well formed: each owner has one group, and no
/// group holds a name twice.
pub proof fn lemma_standard_registry_is_well_formed()
    ensures
        is_well_formed(standard_registry()),
{
    lemma_build_names_distinct(rows_view(GENERAL@));
    lemma_build_names_distinct(rows_view(WINDOWS@));
    lemma_build_names_distinct(rows_view(LINUX@));
    lemma_build_names_distinct(rows_view(FREEBSD@));
    lemma_build_names_distinct(rows_view(APPLE@));
    lemma_build_names_distinct(rows_view(SOLARIS@));
    lemma_build_names_distinct(rows_view(NETBSD@));
    lemma_build_names_distinct(rows_view(CHROMEOS@));
    lemma_build_names_distinct(rows_view(COREOS@));
    lemma_build_names_distinct(rows_view(HAIKU@));
    lemma_build_names_distinct(rows_view(MIDNIGHTBSD@));
    lemma_build_names_distinct(rows_view(CEPH@));
    lemma_build_names_distinct(rows_view(OPENBSD@));
    lemma_build_names_distinct(rows_view(QNX@));
    lemma_build_names_distinct(rows_view(VMWARE@));
    lemma_build_names_distinct(rows_view(ANDROID_IA@));
    lemma_build_names_distinct(rows_view(ANDROID_ARM@));
    lemma_build_names_distinct(rows_view(ONIE@));
    lemma_build_names_distinct(rows_view(ATARITOS@));
}

} // verus!
