//! Mirroring a directory by a junction: the names that the junction records,
//! and the reparse data that turns an empty directory into one.

use vstd::prelude::*;
use crate::text::{replaced, str_replace};

verus! {

/// The tag of a reparse point that is a mount point.
pub const IO_REPARSE_TAG_MOUNT_POINT: u32 = 0xA000_0003;

/// The number of code units that the path buffer of the reparse data holds.
pub const PATH_BUFFER_UNITS: usize = 16384;

/// Why a mirror could not be made.
#[derive(Debug, Clone, PartialEq, Eq)]
pub enum MirrorError<S> {
    /// The source does not exist or is not a directory.
    SourceMissing,
    /// Something exists already at the place of the mirror.
    TargetExists(S),
    /// The names are too long for the reparse data.
    NamesTooLong,
    /// The reparse point could not be set.
    ReparseFailed,
}

impl View for MirrorError<String> {
    type V = MirrorError<Seq<char>>;

    open spec fn view(&self) -> Self::V {
        match self {
            MirrorError::SourceMissing => MirrorError::SourceMissing,
            MirrorError::TargetExists(p) => MirrorError::TargetExists(p@),
            MirrorError::NamesTooLong => MirrorError::NamesTooLong,
            MirrorError::ReparseFailed => MirrorError::ReparseFailed,
        }
    }
}

/// The text shown for a mirror that could not be made.
pub open spec fn mirror_error_text(e: MirrorError<Seq<char>>) -> Seq<char> {
    match e {
        MirrorError::SourceMissing => "源路径不存在或不是一个目录"@,
        MirrorError::TargetExists(p) => "目标路径已存在: "@ + p,
        MirrorError::NamesTooLong => "路径过长"@,
        MirrorError::ReparseFailed => "DeviceIoControl 设置重解析点失败"@,
    }
}

impl MirrorError<String> {
    /// The text shown for this error.
    pub fn message(&self) -> (text: String)
        ensures
            text@ == mirror_error_text(self@),
    {
        match self {
            MirrorError::SourceMissing => String::from_str("源路径不存在或不是一个目录"),
            MirrorError::TargetExists(p) => String::from_str("目标路径已存在: ").concat(p.as_str()),
            MirrorError::NamesTooLong => String::from_str("路径过长"),
            MirrorError::ReparseFailed => String::from_str("DeviceIoControl 设置重解析点失败"),
        }
    }
}

/// Checks what a mirror needs before anything is created: the source is a
/// directory, and nothing is at the place of the mirror yet.
pub fn create_mirror_junction(source_is_dir: bool, target_exists: bool, target: &str) -> (r: Result<
    (),
    MirrorError<String>,
>)
    ensures
        r is Ok <==> (source_is_dir && !target_exists),
        !source_is_dir ==> r is Err && r->Err_0@ == MirrorError::<Seq<char>>::SourceMissing,
        source_is_dir && target_exists ==> r is Err && r->Err_0@ == MirrorError::TargetExists(
            target@,
        ),
{
    if !source_is_dir {
        Err(MirrorError::SourceMissing)
    } else if target_exists {
        Err(MirrorError::TargetExists(String::from_str(target)))
    } else {
        Ok(())
    }
}

/// The name under which the junction finds its target: the full path of the
/// source with the prefix of the object namespace in place of the prefix of
/// long paths.
pub fn substitute_name(canonical: &str) -> (name: String)
    ensures
        name@ == replaced(canonical@, "\\\\?\\"@, "\\??\\"@),
{
    str_replace(canonical, "\\\\?\\", "\\??\\")
}

/// The name under which the junction shows its target: the full path of the
/// source without the prefix of long paths.
pub fn print_name(canonical: &str) -> (name: String)
    ensures
        name@ == replaced(canonical@, "\\\\?\\"@, Seq::<char>::empty()),
{
    proof {
        reveal_strlit("");
        assert(""@ =~= Seq::<char>::empty());
    }
    str_replace(canonical, "\\\\?\\", "")
}

/// The two bytes of a code unit, least significant first.
pub open spec fn unit_bytes(v: u16) -> Seq<u8> {
    seq![(v % 0x100) as u8, (v / 0x100) as u8]
}

/// The bytes of a sequence of code units.
pub open spec fn units_bytes(units: Seq<u16>) -> Seq<u8>
    decreases units.len(),
{
    if units.len() == 0 {
        seq![]
    } else {
        units_bytes(units.drop_last()) + unit_bytes(units.last())
    }
}

/// The names fit the reparse data: both, each with a terminator, fit the
/// path buffer.
pub open spec fn names_fit(substitute: Seq<u16>, print: Seq<u16>) -> bool {
    substitute.len() + print.len() + 2 <= PATH_BUFFER_UNITS
}

/// The reparse data of a mount point: the tag; the length of what follows
/// the first eight bytes; a reserved field; the offset and the length in
/// bytes of the substitute name and of the print name within the path
/// buffer; and the path buffer, with the substitute name, a terminator, the
/// print name, a terminator.
pub open spec fn mount_point_data(substitute: Seq<u16>, print: Seq<u16>) -> Seq<u8> {
    let s = 2 * substitute.len();
    let p = 2 * print.len();
    seq![0x03u8, 0x00u8, 0x00u8, 0xA0u8] + unit_bytes((s + p + 12) as u16) + unit_bytes(0)
        + unit_bytes(0) + unit_bytes(s as u16) + unit_bytes((s + 2) as u16) + unit_bytes(p as u16)
        + units_bytes(substitute) + unit_bytes(0) + units_bytes(print) + unit_bytes(0)
}

fn push_unit(bytes: &mut Vec<u8>, v: u16)
    ensures
        final(bytes)@ == old(bytes)@ + unit_bytes(v),
{
    bytes.push((v % 0x100) as u8);
    bytes.push((v / 0x100) as u8);
    assert(bytes@ =~= old(bytes)@ + unit_bytes(v));
}

fn push_units(bytes: &mut Vec<u8>, units: &Vec<u16>)
    ensures
        final(bytes)@ == old(bytes)@ + units_bytes(units@),
{
    let mut i: usize = 0;
    assert(units@.take(0) =~= seq![]);
    assert(bytes@ =~= old(bytes)@ + units_bytes(units@.take(0)));
    while i < units.len()
        invariant
            i <= units.len(),
            bytes@ == old(bytes)@ + units_bytes(units@.take(i as int)),
        decreases units.len() - i,
    {
        let ghost before = bytes@;
        assert(units@.take(i + 1).drop_last() =~= units@.take(i as int));
        push_unit(bytes, units[i]);
        i += 1;
        assert(bytes@ =~= old(bytes)@ + units_bytes(units@.take(i as int)));
    }
    assert(units@.take(units.len() as int) =~= units@);
}

/// Builds the reparse data of a mount point from the two names, given
/// without terminators. Names that do not fit the path buffer are refused;
/// nothing is written beyond the data, and no length is cut to fit its field.
pub fn mount_point_buffer(substitute: &Vec<u16>, print: &Vec<u16>) -> (r: Option<Vec<u8>>)
    ensures
        r is Some <==> names_fit(substitute@, print@),
        r is Some ==> r->0@ == mount_point_data(substitute@, print@),
        r is Some ==> r->0@.len() == 2 * substitute@.len() + 2 * print@.len() + 20,
{
    if substitute.len() > PATH_BUFFER_UNITS || print.len() > PATH_BUFFER_UNITS || substitute.len()
        + print.len() + 2 > PATH_BUFFER_UNITS {
        return None;
    }
    let s: usize = 2 * substitute.len();
    let p: usize = 2 * print.len();
    let mut bytes: Vec<u8> = Vec::new();
    bytes.push(0x03);
    bytes.push(0x00);
    bytes.push(0x00);
    bytes.push(0xA0);
    assert(bytes@ =~= seq![0x03u8, 0x00u8, 0x00u8, 0xA0u8]);
    push_unit(&mut bytes, (s + p + 12) as u16);
    push_unit(&mut bytes, 0);
    push_unit(&mut bytes, 0);
    push_unit(&mut bytes, s as u16);
    push_unit(&mut bytes, (s + 2) as u16);
    push_unit(&mut bytes, p as u16);
    push_units(&mut bytes, substitute);
    push_unit(&mut bytes, 0);
    push_units(&mut bytes, print);
    push_unit(&mut bytes, 0);
    proof {
        lemma_units_bytes_len(substitute@);
        lemma_units_bytes_len(print@);
    }
    Some(bytes)
}

/// The bytes of a sequence of code units are twice as many.
pub proof fn lemma_units_bytes_len(units: Seq<u16>)
    ensures
        units_bytes(units).len() == 2 * units.len(),
    decreases units.len(),
{
    if units.len() > 0 {
        lemma_units_bytes_len(units.drop_last());
    }
}

/// The reply to a mirror that was made.
pub fn mirror_created(target: &str) -> (reply: String)
    ensures
        reply@ == "成功创建镜像: "@ + target@,
{
    String::from_str("成功创建镜像: ").concat(target)
}

} // verus!
