//! The partition types, as literal rows of a name and a GUID text.
//!
//! One table per group, in the order in which the registry lists the groups;
//! within a table the rows stand in the order of declaration. The rows are
//! the published values, letter for letter, and are kept so where they look
//! wrong: every GUID text of `LINUX` has 35 characters, its last group of
//! digits being one short; the names of `COREOS` end in a stray `)`; and
//! `CEPH` declares the name "Multipath block" twice, so that the registry
//! keeps the later of the two GUIDs for it.

use vstd::prelude::*;

verus! {

/// A row of a table: the name of a partition type and the text of its GUID.
pub type Row = (&'static str, &'static str);

/// Partition types that belong to no single system.
pub const GENERAL: [Row; 7] = [
    ("unused", "00000000-0000-0000-0000-000000000000"),
    ("MBR", "024DEE41-33E7-11D3-9D69-0008C781F39F"),
    ("EFI", "C12A7328-F81F-11D2-BA4B-00A0C93EC93B"),
    ("BIOSBoot", "21686148-6449-6E6F-744E-656564454649"),
    ("IntelFastFlash", "D3BFE2DE-3DAF-11DF-BA40-E3A556D89593"),
    ("SonyBoot", "F4019732-066E-4E12-8273-346C5641494F"),
    ("LenovoBoot", "BFBFAFE7-A34F-448A-9A5B-6213EB736C22"),
];

/// Partition types of `System::Windows`.
pub const WINDOWS: [Row; 9] = [
    ("MSR", "E3C9E316-0B5C-4DB8-817D-F92DF00215AE"),
    ("BasicData", "EBD0A0A2-B9E5-4433-87C0-68B6B72699C7"),
    ("LDMMetadata", "5808C8AA-7E8F-42E0-85D2-E1E90434CFB3"),
    ("LDMData", "AF9B60A0-1431-4F62-BC68-3311714A69AD"),
    ("RE", "DE94BBA4-06D1-4D40-A16A-BFD50179D6AC"),
    ("GPFS", "37AFFC90-EF7D-4E96-91C3-2D7AE055B174"),
    ("StorageSpaces", "E75CAF8F-F680-4CEE-AFA3-B001E56EFC2D"),
    ("HPUXData", "75894C1E-3AEB-11D3-B7C1-7B03A0000000"),
    ("Service", "E2A1E728-32E3-11D6-A682-7B03A0000000"),
];

/// Partition types of `System::Linux`.
pub const LINUX: [Row; 13] = [
    ("filesystem data", "0FC63DAF-8483-4772-8E79-3D69D8477DE"),
    ("RAID", "A19D880F-05FC-4D3B-A006-743F0F84911"),
    ("Rootx86", "44479540-F297-41B2-9AF7-D131D5F0458"),
    ("Rootx86-64", "4F68BCE3-E8CD-4DB1-96E7-FBCAF984B70"),
    ("Root32-bit ARM", "69DAD710-2CE4-4E3C-B16C-21A1D49ABED"),
    ("Root64-bit ARM", "B921B045-1DF0-41C3-AF44-4C6F280D3FA"),
    ("Swap", "0657FD6D-A4AB-43C4-84E5-0933C84B4F4"),
    ("LogicalVolumeManager", "E6D6D379-F507-44C2-A23C-238F2A3DF92"),
    ("home", "933AC7E1-2EB4-4F13-B844-0E14E2AEF91"),
    ("srv", "3B8F8425-20E0-4F3B-907F-1A25A76F98E"),
    ("dm-crypt", "7FFEC5C9-2D00-49B7-8941-3EA10A5586B"),
    ("LUKS", "CA7D7CCB-63ED-4C53-861C-1742536059C"),
    ("Reserved", "8DA63339-0007-60C0-C436-083AC823090"),
];

/// Partition types of `System::FreeBSD`.
pub const FREEBSD: [Row; 6] = [
    ("FreeBSD-Boot", "83BD6B9D-7F41-11DC-BE0B-001560B84F0F"),
    ("FreeBSD-Data", "516E7CB4-6ECF-11D6-8FF8-00022D09712B"),
    ("FreeBSD-Swap", "516E7CB5-6ECF-11D6-8FF8-00022D09712B"),
    ("FreeBSD-UnixFileSystem", "516E7CB6-6ECF-11D6-8FF8-00022D09712B"),
    ("FreeBSD-VinumVolumeManager", "516E7CB8-6ECF-11D6-8FF8-00022D09712B"),
    ("FreeBSD-ZFS", "516E7CBA-6ECF-11D6-8FF8-00022D09712B"),
];

/// Partition types of `System::Apple`.
pub const APPLE: [Row; 14] = [
    ("HFS+", "48465300-0000-11AA-AA11-00306543ECAC"),
    ("APFS", "7C3457EF-0000-11AA-AA11-00306543ECAC"),
    ("UFS container", "55465300-0000-11AA-AA11-00306543ECAC"),
    ("ZFS", "6A898CC3-1DD2-11B2-99A6-080020736631"),
    ("RAID", "52414944-0000-11AA-AA11-00306543ECAC"),
    ("RAID offline", "52414944-5F4F-11AA-AA11-00306543ECAC"),
    ("Boot", "426F6F74-0000-11AA-AA11-00306543ECAC"),
    ("Label", "4C616265-6C00-11AA-AA11-00306543ECAC"),
    ("TV Recovery", "5265636F-7665-11AA-AA11-00306543ECAC"),
    ("Core Storage", "53746F72-6167-11AA-AA11-00306543ECAC"),
    ("SoftRAID_Status", "B6FA30DA-92D2-4A9A-96F1-871EC6486200"),
    ("SoftRAID_Scratch", "2E313465-19B9-463F-8126-8A7993773801"),
    ("SoftRAID_Volume", "FA709C7E-65B1-4593-BFD5-E71D61DE9B02"),
    ("SoftRAID_Cache", "BBBA6DF5-F46F-4A89-8F59-8765B2727503"),
];

/// Partition types of `System::Solaris`.
pub const SOLARIS: [Row; 13] = [
    ("Boot", "6A82CB45-1DD2-11B2-99A6-080020736631"),
    ("Root", "6A85CF4D-1DD2-11B2-99A6-080020736631"),
    ("Swap", "6A87C46F-1DD2-11B2-99A6-080020736631"),
    ("Backup", "6A8B642B-1DD2-11B2-99A6-080020736631"),
    ("/usr", "6A898CC3-1DD2-11B2-99A6-080020736631"),
    ("/var", "6A8EF2E9-1DD2-11B2-99A6-080020736631"),
    ("/home", "6A90BA39-1DD2-11B2-99A6-080020736631"),
    ("Alternate sector", "6A9283A5-1DD2-11B2-99A6-080020736631"),
    ("Reserved", "6A945A3B-1DD2-11B2-99A6-080020736631"),
    ("Reserved1", "6A9630D1-1DD2-11B2-99A6-080020736631"),
    ("Reserved2", "6A980767-1DD2-11B2-99A6-080020736631"),
    ("Reserved3", "6A96237F-1DD2-11B2-99A6-080020736631"),
    ("Reserved4", "6A8D2AC7-1DD2-11B2-99A6-080020736631"),
];

/// Partition types of `System::NetBSD`.
pub const NETBSD: [Row; 6] = [
    ("Swap", "49F48D32-B10E-11DC-B99B-0019D1879648"),
    ("FFS", "49F48D5A-B10E-11DC-B99B-0019D1879648"),
    ("LFS", "49F48D82-B10E-11DC-B99B-0019D1879648"),
    ("RAID", "49F48DAA-B10E-11DC-B99B-0019D1879648"),
    ("Concatenated", "2DB519C4-B10F-11DC-B99B-0019D1879648"),
    ("Encrypted", "2DB519EC-B10F-11DC-B99B-0019D1879648"),
];

/// Partition types of `System::ChromeOS`.
pub const CHROMEOS: [Row; 3] = [
    ("kernel", "FE3A2A5D-4F32-41A7-B725-ACCC3285A309"),
    ("rootfs", "3CB8E202-3B7E-47DD-8A3C-7FF2A13CFCEC"),
    ("future", "2E0A753D-9E48-43B0-8337-B15192CB1B5E"),
];

/// Partition types of `System::CoreOS`.
pub const COREOS: [Row; 4] = [
    ("Usr)", "5DFBF5F4-2848-4BAC-AA5E-0D9A20B745A6"),
    ("Resize)", "3884DD41-8582-4404-B9A8-E9B84F2DF50E"),
    ("Reserved)", "C95DC21A-DF0E-4340-8D7B-26CBFA9A03E0"),
    ("RootRaid)", "BE9067B9-EA49-4F15-B4F6-F36F8C9E1818"),
];

/// Partition types of `System::Haiku`.
pub const HAIKU: [Row; 1] = [
    ("BFS", "42465331-3BA3-10F1-802A-4861696B7521"),
];

/// Partition types of `System::MidnightBSD`.
pub const MIDNIGHTBSD: [Row; 6] = [
    ("Boot", "85D5E45E-237C-11E1-B4B3-E89A8F7FC3A7"),
    ("Data", "85D5E45A-237C-11E1-B4B3-E89A8F7FC3A7"),
    ("Swap", "85D5E45B-237C-11E1-B4B3-E89A8F7FC3A7"),
    ("Unix File System (UFS)", "0394EF8B-237E-11E1-B4B3-E89A8F7FC3A7"),
    ("Vinum volume manager", "85D5E45C-237C-11E1-B4B3-E89A8F7FC3A7"),
    ("ZFS", "85D5E45D-237C-11E1-B4B3-E89A8F7FC3A7"),
];

/// Partition types of `System::Ceph`.
pub const CEPH: [Row; 24] = [
    ("Journal", "45B0969E-9B03-4F30-B4C6-B4B80CEFF106"),
    ("dm-crypt journal", "45B0969E-9B03-4F30-B4C6-5EC00CEFF106"),
    ("OSD", "4FBD7E29-9D25-41B8-AFD0-062C0CEFF05D"),
    ("dm-crypt OSD", "4FBD7E29-9D25-41B8-AFD0-5EC00CEFF05D"),
    ("Disk in creation", "89C57F98-2FE5-4DC0-89C1-F3AD0CEFF2BE"),
    ("dm-crypt disk in creation", "89C57F98-2FE5-4DC0-89C1-5EC00CEFF2BE"),
    ("Block", "CAFECAFE-9B03-4F30-B4C6-B4B80CEFF106"),
    ("Block DB", "30CD0809-C2B2-499C-8879-2D6B78529876"),
    ("Block write-ahead log", "5CE17FCE-4087-4169-B7FF-056CC58473F9"),
    ("Lockbox for dm-crypt keys", "FB3AABF9-D25F-47CC-BF5E-721D1816496B"),
    ("Multipath OSD", "4FBD7E29-8AE0-4982-BF9D-5A8D867AF560"),
    ("Multipath journal", "45B0969E-8AE0-4982-BF9D-5A8D867AF560"),
    ("Multipath block", "CAFECAFE-8AE0-4982-BF9D-5A8D867AF560"),
    ("Multipath block", "7F4A666A-16F3-47A2-8445-152EF4D03F6C"),
    ("Multipath block DB", "EC6D6385-E346-45DC-BE91-DA2A7C8B3261"),
    ("Multipath block write-ahead log", "01B41E1B-002A-453C-9F17-88793989FF8F"),
    ("dm-crypt block", "CAFECAFE-9B03-4F30-B4C6-5EC00CEFF106"),
    ("dm-crypt block DB", "93B0052D-02D9-4D8A-A43B-33A3EE4DFBC3"),
    ("dm-crypt block write-ahead log", "306E8683-4FE2-4330-B7C0-00A917C16966"),
    ("dm-crypt LUKS journal", "45B0969E-9B03-4F30-B4C6-35865CEFF106"),
    ("dm-crypt LUKS block", "CAFECAFE-9B03-4F30-B4C6-35865CEFF106"),
    ("dm-crypt LUKS block DB", "166418DA-C469-4022-ADF4-B30AFD37F176"),
    ("dm-crypt LUKS block write-ahead log", "86A32090-3647-40B9-BBBD-38D8C573AA86"),
    ("dm-crypt LUKS OSD", "4FBD7E29-9D25-41B8-AFD0-35865CEFF05D"),
];

/// Partition types of `System::OpenBSD`.
pub const OPENBSD: [Row; 1] = [
    ("Data", "824CC7A0-36A8-11E3-890A-952519AD3F61"),
];

/// Partition types of `System::QNX`.
pub const QNX: [Row; 1] = [
    ("PowerSafe", "CEF5A9AD-73BC-4601-89F3-CDEEEEE321A1"),
];

/// Partition types of `System::VMware`.
pub const VMWARE: [Row; 3] = [
    ("vmkcore", "9D275380-40AD-11DB-BF97-000C2911D1B8"),
    ("VMFS", "AA31E02A-400F-11DB-9590-000C2911D1B8"),
    ("Reserved", "9198EFFC-31C0-11DB-8F78-000C2911D1B8"),
];

/// Partition types of `System::AndroidIA`.
pub const ANDROID_IA: [Row; 16] = [
    ("Bootloader", "2568845D-2332-4675-BC39-8FA5A4748D15"),
    ("Bootloader2", "114EAFFE-1552-4022-B26E-9B053604CF84"),
    ("Boot", "49A4D17F-93A3-45C1-A0DE-F50B2EBE2599"),
    ("Recovery", "4177C722-9E92-4AAB-8644-43502BFD5506"),
    ("Misc", "EF32A33B-A409-486C-9141-9FFB711F6266"),
    ("Metadata", "20AC26BE-20B7-11E3-84C5-6CFDB94711E9"),
    ("System", "38F428E6-D326-425D-9140-6E0EA133647C"),
    ("Cache", "A893EF21-E428-470A-9E55-0668FD91A2D9"),
    ("Data", "DC76DDA9-5AC1-491C-AF42-A82591580C0D"),
    ("Persistent", "EBC597D0-2053-4B15-8B64-E0AAC75F4DB1"),
    ("Vendor", "C5A0AEEC-13EA-11E5-A1B1-001E67CA0C3C"),
    ("Config", "BD59408B-4514-490D-BF12-9878D963F378"),
    ("Factory", "8F68CC74-C5E5-48DA-BE91-A0C8C15E9C80"),
    ("Factory (alt)", "9FDAA6EF-4B3F-40D2-BA8D-BFF16BFB887B"),
    ("Fastboot / Tertiary", "767941D0-2085-11E3-AD3B-6CFDB94711E9"),
    ("OEM", "AC6D7924-EB71-4DF8-B48D-E267B27148FF"),
];

/// Partition types of `System::AndroidARM`.
pub const ANDROID_ARM: [Row; 2] = [
    ("Android Meta", "19A710A2-B3CA-11E4-B026-10604B889DCF"),
    ("Android EXT", "193D1EA4-B3CA-11E4-B075-10604B889DCF"),
];

/// Partition types of `System::ONIE`.
pub const ONIE: [Row; 2] = [
    ("Boot", "7412F7D5-A156-4B13-81DC-867174929325"),
    ("Config", "D4E6E2CD-4469-46F3-B5CB-1BFF57AFC149"),
];

/// Partition types of `System::AtariTOS`.
pub const ATARITOS: [Row; 1] = [
    ("Basic data", "734E5AFE-F61A-11E6-BC64-92361F002671"),
];

} // verus!
