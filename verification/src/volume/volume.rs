//! What a volume is, and how the user writes one.

use crate::error::{error_of, ContainerError, ContainerResult, ErrorKind, ErrorView};
use crate::path::{absolute, is_absolute, join, joined_path};
use crate::text::{
    chars_of, lemma_split_on_first, lemma_split_on_whole, prefixed, same_text, split, split_on,
    string_of, views,
};
use vstd::prelude::*;

verus! {

/// Whether the container may write to a volume.
#[derive(Debug, Clone, Copy, PartialEq, Eq, Structural)]
pub enum MountMode {
    ReadWrite,
    ReadOnly,
}

/// A host directory and the place where it appears in the container.
#[derive(Debug, Clone, PartialEq, Eq)]
pub struct VolumeMount {
    /// The directory on the host.
    pub source: String,
    /// The absolute path inside the container.
    pub dest: String,
    pub mode: MountMode,
    /// Whether the runtime made the source for this container alone.
    pub is_anonymous: bool,
}

/// `VolumeMount`, with every text as the sequence of its characters.
pub struct VolumeMountView {
    pub source: Seq<char>,
    pub dest: Seq<char>,
    pub mode: MountMode,
    pub is_anonymous: bool,
}

impl View for VolumeMount {
    type V = VolumeMountView;

    open spec fn view(&self) -> VolumeMountView {
        VolumeMountView {
            source: self.source@,
            dest: self.dest@,
            mode: self.mode,
            is_anonymous: self.is_anonymous,
        }
    }
}

/// Whether `c` is a hexadecimal digit in lower case.
pub open spec fn is_lower_hex(c: char) -> bool {
    48 <= c as u32 <= 57 || 97 <= c as u32 <= 102
}

/// Whether `s` has the shape of a UUID in its usual notation: 36 characters,
/// hyphens at the positions 8, 13, 18 and 23, and hexadecimal digits in lower
/// case everywhere else.
pub open spec fn is_uuid_text(s: Seq<char>) -> bool {
    &&& s.len() == 36
    &&& forall|i: int|
        0 <= i < 36 ==> if i == 8 || i == 13 || i == 18 || i == 23 {
            #[trigger] s[i] == '-'
        } else {
            is_lower_hex(s[i])
        }
}

/// `uuid::Uuid::new_v4`, shown through `Display`: a fresh random UUID in
/// hyphenated lower-case notation. Nothing is said of which one.
#[verifier::external_body]
pub(crate) fn fresh_uuid() -> (s: String)
    ensures
        is_uuid_text(s@),
{
    uuid::Uuid::new_v4().to_string()
}

/// The directory of an anonymous volume: `CoreRun/vol_` and the tag, under
/// the directory for temporary files.
pub open spec fn anonymous_source(tmp: Seq<char>, tag: Seq<char>) -> Seq<char> {
    joined_path(joined_path(tmp, "CoreRun"@), "vol_"@ + tag)
}

/// The failure for a destination that does not start at the root.
pub open spec fn not_absolute(dest: Seq<char>) -> ErrorView {
    error_of(ErrorKind::InvalidConfiguration, "Container path must be absolute: "@ + dest)
}

/// The mode that `word` names: `ro` or `rw`.
pub open spec fn mode_named(word: Seq<char>) -> Option<MountMode> {
    if word == "ro"@ {
        Some(MountMode::ReadOnly)
    } else if word == "rw"@ {
        Some(MountMode::ReadWrite)
    } else {
        None
    }
}

/// What the text of a volume denotes. `tmp` is the directory for temporary
/// files and `tag` names the source of an anonymous volume.
///
/// The text is cut at `:`. One piece is the destination of an anonymous
/// volume; two are source and destination; three are source, destination and
/// mode. The destination must be absolute. A volume is writable unless its
/// mode is `ro`.
pub open spec fn volume_of(s: Seq<char>, tmp: Seq<char>, tag: Seq<char>) -> Result<
    VolumeMountView,
    ErrorView,
> {
    let parts = split_on(s, ':');
    if parts.len() == 1 {
        if !is_absolute(parts[0]) {
            Err(not_absolute(parts[0]))
        } else {
            Ok(
                VolumeMountView {
                    source: anonymous_source(tmp, tag),
                    dest: parts[0],
                    mode: MountMode::ReadWrite,
                    is_anonymous: true,
                },
            )
        }
    } else if parts.len() == 2 {
        if !is_absolute(parts[1]) {
            Err(not_absolute(parts[1]))
        } else {
            Ok(
                VolumeMountView {
                    source: parts[0],
                    dest: parts[1],
                    mode: MountMode::ReadWrite,
                    is_anonymous: false,
                },
            )
        }
    } else if parts.len() == 3 {
        if mode_named(parts[2]) is None {
            Err(error_of(ErrorKind::InvalidConfiguration, "Invalid mount mode: "@ + parts[2]))
        } else if !is_absolute(parts[1]) {
            Err(not_absolute(parts[1]))
        } else {
            Ok(
                VolumeMountView {
                    source: parts[0],
                    dest: parts[1],
                    mode: mode_named(parts[2])->0,
                    is_anonymous: false,
                },
            )
        }
    } else {
        Err(error_of(ErrorKind::InvalidConfiguration, "Invalid mount format"@))
    }
}

/// The word for a mode: `ro` or `rw`.
pub open spec fn mode_name(mode: MountMode) -> Seq<char> {
    match mode {
        MountMode::ReadOnly => "ro"@,
        MountMode::ReadWrite => "rw"@,
    }
}

/// What is written as source, `:`, destination, `:` and the word of a mode
/// is read as exactly that volume, where neither path holds a `:` and the
/// destination is absolute.
pub proof fn lemma_volume_read_back(
    source: Seq<char>,
    dest: Seq<char>,
    mode: MountMode,
    tmp: Seq<char>,
    tag: Seq<char>,
)
    requires
        !source.contains(':'),
        !dest.contains(':'),
        is_absolute(dest),
    ensures
        volume_of(source + seq![':'] + dest + seq![':'] + mode_name(mode), tmp, tag) == Ok::<
            VolumeMountView,
            ErrorView,
        >(VolumeMountView { source, dest, mode, is_anonymous: false }),
        volume_of(source + seq![':'] + dest, tmp, tag) == Ok::<VolumeMountView, ErrorView>(
            VolumeMountView { source, dest, mode: MountMode::ReadWrite, is_anonymous: false },
        ),
        volume_of(dest, tmp, tag) == Ok::<VolumeMountView, ErrorView>(
            VolumeMountView {
                source: anonymous_source(tmp, tag),
                dest,
                mode: MountMode::ReadWrite,
                is_anonymous: true,
            },
        ),
{
    let word = mode_name(mode);
    reveal_strlit("ro");
    reveal_strlit("rw");
    assert(!word.contains(':')) by {
        assert forall|j: int| 0 <= j < word.len() implies word[j] != ':' by {}
    }
    assert("ro"@[1] != "rw"@[1]);
    lemma_split_on_whole(word, ':');
    lemma_split_on_whole(dest, ':');
    lemma_split_on_first(dest, ':', word);
    lemma_split_on_first(source, ':', dest + seq![':'] + word);
    lemma_split_on_first(source, ':', dest);
    let three = source + seq![':'] + dest + seq![':'] + word;
    assert(three =~= source + seq![':'] + (dest + seq![':'] + word));
    let parts = split_on(three, ':');
    assert(parts == seq![source, dest, word]);
    assert(parts[0] == source && parts[1] == dest && parts[2] == word);
    let two = split_on(source + seq![':'] + dest, ':');
    assert(two == seq![source, dest]);
    assert(two[0] == source && two[1] == dest);
    assert(split_on(dest, ':')[0] == dest);
}

/// A volume or an error, as plain values.
pub open spec fn mount_outcome(r: ContainerResult<VolumeMount>) -> Result<
    VolumeMountView,
    ErrorView,
> {
    match r {
        Ok(m) => Ok(m@),
        Err(e) => Err(e@),
    }
}

fn refuse_relative(dest: &[char]) -> (e: ContainerError)
    ensures
        e@ == not_absolute(dest@),
{
    ContainerError::InvalidConfiguration {
        message: prefixed("Container path must be absolute: ", dest),
    }
}

impl VolumeMount {
    /// Reads a volume written as `SRC[:DST[:ro|:rw]]`, with `tag` as the name
    /// of the source where the volume is anonymous.
    pub fn parse_with(volume_str: &str, tmp_dir: &str, tag: &str) -> (r: ContainerResult<
        VolumeMount,
    >)
        ensures
            mount_outcome(r) == volume_of(volume_str@, tmp_dir@, tag@),
    {
        let text = chars_of(volume_str);
        let parts = split(text.as_slice(), ':');
        assert(views(parts@)[0] == parts@[0]@);
        if parts.len() == 1 {
            if !absolute(parts[0].as_slice()) {
                return Err(refuse_relative(parts[0].as_slice()));
            }
            Ok(
                VolumeMount {
                    source: VolumeMount::create_anonymous_volume(tmp_dir, tag),
                    dest: string_of(parts[0].as_slice()),
                    mode: MountMode::ReadWrite,
                    is_anonymous: true,
                },
            )
        } else if parts.len() == 2 {
            assert(views(parts@)[1] == parts@[1]@);
            if !absolute(parts[1].as_slice()) {
                return Err(refuse_relative(parts[1].as_slice()));
            }
            Ok(
                VolumeMount {
                    source: string_of(parts[0].as_slice()),
                    dest: string_of(parts[1].as_slice()),
                    mode: MountMode::ReadWrite,
                    is_anonymous: false,
                },
            )
        } else if parts.len() == 3 {
            assert(views(parts@)[1] == parts@[1]@);
            assert(views(parts@)[2] == parts@[2]@);
            let mode = if same_text(parts[2].as_slice(), "ro") {
                MountMode::ReadOnly
            } else if same_text(parts[2].as_slice(), "rw") {
                MountMode::ReadWrite
            } else {
                return Err(
                    ContainerError::InvalidConfiguration {
                        message: prefixed("Invalid mount mode: ", parts[2].as_slice()),
                    },
                );
            };
            if !absolute(parts[1].as_slice()) {
                return Err(refuse_relative(parts[1].as_slice()));
            }
            Ok(
                VolumeMount {
                    source: string_of(parts[0].as_slice()),
                    dest: string_of(parts[1].as_slice()),
                    mode,
                    is_anonymous: false,
                },
            )
        } else {
            Err(
                ContainerError::InvalidConfiguration {
                    message: String::from_str("Invalid mount format"),
                },
            )
        }
    }

    /// Reads a volume written as `SRC[:DST[:ro|:rw]]`. The source of an
    /// anonymous volume is named by a fresh UUID.
    pub fn parse(volume_str: &str, tmp_dir: &str) -> (r: ContainerResult<VolumeMount>)
        ensures
            exists|tag: Seq<char>|
                is_uuid_text(tag) && mount_outcome(r) == #[trigger] volume_of(
                    volume_str@,
                    tmp_dir@,
                    tag,
                ),
    {
        let tag = fresh_uuid();
        let r = VolumeMount::parse_with(volume_str, tmp_dir, tag.as_str());
        assert(is_uuid_text(tag@) && mount_outcome(r) == volume_of(volume_str@, tmp_dir@, tag@));
        r
    }

    /// The directory of the anonymous volume named by `tag`.
    pub fn create_anonymous_volume(tmp_dir: &str, tag: &str) -> (s: String)
        ensures
            s@ == anonymous_source(tmp_dir@, tag@),
    {
        let tmp = chars_of(tmp_dir);
        let home = chars_of("CoreRun");
        let base = join(tmp.as_slice(), home.as_slice());
        let name = chars_of(tag);
        let leaf = chars_of("vol_");
        let mut file: Vec<char> = Vec::new();
        let mut leaf = leaf;
        file.append(&mut leaf);
        let mut name = name;
        file.append(&mut name);
        let full = join(base.as_slice(), file.as_slice());
        string_of(full.as_slice())
    }
}

} // verus!
