//! The whole link: the header, the structures that it announces, and what
//! they resolve to.
use crate::error::{opt_text, opt_view, view_result, LnkError};
use crate::extra_data::{first_tracker_machine, spec_extra_data, ExtraData, ExtraDataView};
use crate::format::{decimal_text, filetime_text, format_decimal, format_filetime};
use crate::link_info::{link_info_path, spec_link_info, LinkInfo, LinkInfoView};
use crate::link_target_id_list::{
    first_fragment, id_list_len, spec_id_list, LinkTargetIDList, LinkTargetIDListView,
};
use crate::shell_link_header::{spec_header, LinkFlags, ShellLinkHeader, HEADER_LEN};
use crate::string_data::{spec_string_data, string_data_len, StringData, StringDataView};
use vstd::prelude::*;
use vstd::slice::slice_subrange;

verus! {

/// What is known of the file that a link was read from: its path and its
/// three timestamps, each in 100-nanosecond ticks since 1601.
#[derive(Debug, Clone, PartialEq, Eq)]
pub struct LnkFileMetaData {
    /// The full path of the link file.
    pub full_path: String,
    /// When the link file was last modified.
    pub mtime: u64,
    /// When the link file was last accessed.
    pub atime: u64,
    /// When the link file was created.
    pub ctime: u64,
}

/// What a [`LnkFileMetaData`] holds, with its path as a character sequence.
pub struct LnkFileMetaDataView {
    pub full_path: Seq<char>,
    pub mtime: u64,
    pub atime: u64,
    pub ctime: u64,
}

impl View for LnkFileMetaData {
    type V = LnkFileMetaDataView;

    open spec fn view(&self) -> LnkFileMetaDataView {
        LnkFileMetaDataView {
            full_path: self.full_path@,
            mtime: self.mtime,
            atime: self.atime,
            ctime: self.ctime,
        }
    }
}

impl LnkFileMetaData {
    /// The metadata of a link file with the given path and timestamps.
    pub fn new(full_path: String, mtime: u64, atime: u64, ctime: u64) -> (r: LnkFileMetaData)
        ensures
            r@ == (LnkFileMetaDataView { full_path: full_path@, mtime, atime, ctime }),
    {
        LnkFileMetaData { full_path, mtime, atime, ctime }
    }
}

/// A decoded shell link.
#[derive(Debug, Clone, PartialEq, Eq)]
pub struct Lnk {
    /// The path of the target, as far as the link resolves it.
    pub target_full_path: Option<String>,
    /// What is known of the link file itself. Decoding leaves it empty.
    pub lnk_file_metadata: Option<LnkFileMetaData>,
    /// The header.
    pub shell_link_header: ShellLinkHeader,
    /// The target identifier list.
    pub link_target_id_list: Option<LinkTargetIDList>,
    /// The link-location descriptor.
    pub link_info: Option<LinkInfo>,
    /// The description of the link.
    pub name_string: Option<StringData>,
    /// The path of the target relative to the link.
    pub relative_path: Option<StringData>,
    /// The directory in which the target is started.
    pub working_dir: Option<StringData>,
    /// The arguments that the target is started with.
    pub command_line_arguments: Option<StringData>,
    /// Where the icon of the link is.
    pub icon_location: Option<StringData>,
    /// The blocks of extra data.
    pub extra_data: Option<ExtraData>,
}

/// What a [`Lnk`] holds.
pub struct LnkView {
    pub target_full_path: Option<Seq<char>>,
    pub lnk_file_metadata: Option<LnkFileMetaDataView>,
    pub shell_link_header: ShellLinkHeader,
    pub link_target_id_list: Option<LinkTargetIDListView>,
    pub link_info: Option<LinkInfoView>,
    pub name_string: Option<StringDataView>,
    pub relative_path: Option<StringDataView>,
    pub working_dir: Option<StringDataView>,
    pub command_line_arguments: Option<StringDataView>,
    pub icon_location: Option<StringDataView>,
    pub extra_data: Option<ExtraDataView>,
}

impl View for Lnk {
    type V = LnkView;

    open spec fn view(&self) -> LnkView {
        LnkView {
            target_full_path: opt_text(self.target_full_path),
            lnk_file_metadata: opt_view(self.lnk_file_metadata),
            shell_link_header: self.shell_link_header,
            link_target_id_list: opt_view(self.link_target_id_list),
            link_info: opt_view(self.link_info),
            name_string: opt_view(self.name_string),
            relative_path: opt_view(self.relative_path),
            working_dir: opt_view(self.working_dir),
            command_line_arguments: opt_view(self.command_line_arguments),
            icon_location: opt_view(self.icon_location),
            extra_data: opt_view(self.extra_data),
        }
    }
}

/// A member of the link and the offset at which the next one starts.
pub type Slot<T> = Result<(Option<T>, int), LnkError>;

/// The target identifier list at `at`: nothing, and no byte taken, without
/// its flag; with it, the list there, which must decode.
#[verifier::opaque]
pub open spec fn id_list_slot(s: Seq<u8>, present: bool, at: int) -> Slot<LinkTargetIDListView> {
    if !present {
        Ok((None, at))
    } else {
        match spec_id_list(s.skip(at)) {
            Ok(list) => Ok((Some(list), at + id_list_len(list.size))),
            Err(e) => Err(e),
        }
    }
}

/// The link-location descriptor at `at`: nothing, and no byte taken, without
/// its flag; with it, the descriptor there, which must decode.
#[verifier::opaque]
pub open spec fn link_info_slot(s: Seq<u8>, present: bool, at: int) -> Slot<LinkInfoView> {
    if !present {
        Ok((None, at))
    } else {
        match spec_link_info(s.skip(at)) {
            Ok(info) => Ok((Some(info), at + info.size)),
            Err(e) => Err(e),
        }
    }
}

/// The string field at `at`: nothing, and no byte taken, without its flag;
/// with it, the string there, which must decode.
#[verifier::opaque]
pub open spec fn string_slot(s: Seq<u8>, present: bool, unicode: bool, at: int) -> Slot<
    StringDataView,
> {
    if !present {
        Ok((None, at))
    } else {
        match spec_string_data(s.skip(at), unicode) {
            Ok(text) => Ok((Some(text), at + string_data_len(text.size, unicode))),
            Err(e) => Err(e),
        }
    }
}

/// The five strings of a link, each there where the header has its flag.
pub struct LinkStringsView {
    pub name_string: Option<StringDataView>,
    pub relative_path: Option<StringDataView>,
    pub working_dir: Option<StringDataView>,
    pub command_line_arguments: Option<StringDataView>,
    pub icon_location: Option<StringDataView>,
}

/// The five strings that start at `at`, each where `flags` has its flag and
/// each starting where the one before it ends, and the offset after the
/// last. The first string that is announced and cannot be decoded fails them
/// all.
pub open spec fn strings_slot(s: Seq<u8>, flags: LinkFlags, at: int) -> Result<
    (LinkStringsView, int),
    LnkError,
> {
    let unicode = flags.is_unicode;
    match string_slot(s, flags.has_name, unicode, at) {
        Err(e) => Err(e),
        Ok((name_string, after_name)) => match string_slot(s, flags.has_relative_path, unicode, after_name) {
            Err(e) => Err(e),
            Ok((relative_path, after_relative)) => match string_slot(s, flags.has_working_dir, unicode, after_relative) {
                Err(e) => Err(e),
                Ok((working_dir, after_working)) => match string_slot(s, flags.has_arguments, unicode, after_working) {
                    Err(e) => Err(e),
                    Ok((command_line_arguments, after_arguments)) => match string_slot(
                        s,
                        flags.has_icon_location,
                        unicode,
                        after_arguments,
                    ) {
                        Err(e) => Err(e),
                        Ok((icon_location, end)) => Ok(
                            (
                                LinkStringsView {
                                    name_string,
                                    relative_path,
                                    working_dir,
                                    command_line_arguments,
                                    icon_location,
                                },
                                end,
                            ),
                        ),
                    },
                },
            },
        },
    }
}

/// The path that a link resolves to: that of its link-location descriptor
/// where it has one, else the fragment that its target identifier list
/// yields, else nothing.
pub open spec fn resolved_path(
    link_info: Option<LinkInfoView>,
    link_target_id_list: Option<LinkTargetIDListView>,
) -> Option<Seq<char>> {
    let from_info = match link_info {
        Some(info) => link_info_path(info),
        None => None,
    };
    match from_info {
        Some(path) => Some(path),
        None => match link_target_id_list {
            Some(list) => first_fragment(list.items, 0),
            None => None,
        },
    }
}

/// The extra data in the bytes that follow the other members. What cannot
/// be read there is absent.
pub open spec fn trailing_extra_data(rest: Seq<u8>) -> Option<ExtraDataView> {
    match spec_extra_data(rest) {
        Ok(extra) => Some(extra),
        Err(_) => None,
    }
}

/// The link that the bytes `s` decode to.
///
/// The header comes first and decides which members follow: in this order,
/// the target identifier list, the link-location descriptor, and the five
/// strings, each there exactly where the header has its flag, and each
/// starting where the one before it ends. A member that the header
/// announces and that cannot be decoded fails the whole decode, with the
/// error of the first such member. The extra data is whatever can be read
/// of the bytes after the last member. The target path is resolved from the
/// members, and nothing is known of the link file itself.
pub open spec fn spec_lnk(s: Seq<u8>) -> Result<LnkView, LnkError> {
    match spec_header(s) {
        Err(e) => Err(e),
        Ok(header) => spec_members(s, header),
    }
}

/// The link that the bytes `s` decode to, given their header.
pub open spec fn spec_members(s: Seq<u8>, header: ShellLinkHeader) -> Result<LnkView, LnkError> {
    let flags = header.flags;
    match id_list_slot(s, flags.has_link_target_id_list, HEADER_LEN as int) {
        Err(e) => Err(e),
        Ok((link_target_id_list, after_list)) => match link_info_slot(s, flags.has_link_info, after_list) {
            Err(e) => Err(e),
            Ok((link_info, after_info)) => match strings_slot(s, flags, after_info) {
                Err(e) => Err(e),
                Ok((strings, end)) => Ok(
                    LnkView {
                        target_full_path: resolved_path(link_info, link_target_id_list),
                        lnk_file_metadata: None,
                        shell_link_header: header,
                        link_target_id_list,
                        link_info,
                        name_string: strings.name_string,
                        relative_path: strings.relative_path,
                        working_dir: strings.working_dir,
                        command_line_arguments: strings.command_line_arguments,
                        icon_location: strings.icon_location,
                        extra_data: trailing_extra_data(s.skip(end)),
                    },
                ),
            },
        },
    }
}

/// Whether each optional member of `link` is there exactly where the header
/// has its flag.
pub open spec fn presence_follows_flags(link: LnkView) -> bool {
    let flags = link.shell_link_header.flags;
    &&& link.link_target_id_list.is_some() <==> flags.has_link_target_id_list
    &&& link.link_info.is_some() <==> flags.has_link_info
    &&& link.name_string.is_some() <==> flags.has_name
    &&& link.relative_path.is_some() <==> flags.has_relative_path
    &&& link.working_dir.is_some() <==> flags.has_working_dir
    &&& link.command_line_arguments.is_some() <==> flags.has_arguments
    &&& link.icon_location.is_some() <==> flags.has_icon_location
}

/// A text that is empty where it is absent.
pub open spec fn or_empty(text: Option<Seq<char>>) -> Seq<char> {
    match text {
        Some(t) => t,
        None => Seq::empty(),
    }
}

/// The machine name of the first tracker block of a link's extra data.
pub open spec fn target_hostname(extra_data: Option<ExtraDataView>) -> Option<Seq<char>> {
    match extra_data {
        Some(extra) => first_tracker_machine(extra.extra_data_blocks, 0),
        None => None,
    }
}

/// The path of the file that a link was read from, empty where it is not
/// known.
pub open spec fn link_file_path(metadata: Option<LnkFileMetaDataView>) -> Seq<char> {
    match metadata {
        Some(m) => m.full_path,
        None => Seq::empty(),
    }
}

/// One timestamp of the file that a link was read from, as text; empty
/// where it is not known.
pub open spec fn link_file_time(ticks: Option<u64>) -> Seq<char> {
    match ticks {
        Some(t) => filetime_text(t),
        None => Seq::empty(),
    }
}

/// The flat record of `link`: ten keys in a fixed order, each with its
/// value.
///
/// The target's path is the one that the link resolves to. Its timestamps
/// and size are those of the header, and its host is the machine of the
/// first tracker block. The link file's path and timestamps are those of its
/// metadata. What the link does not have is an empty text.
pub open spec fn record_of(link: LnkView) -> Seq<(Seq<char>, Seq<char>)> {
    let header = link.shell_link_header;
    let metadata = link.lnk_file_metadata;
    seq![
        (
            "target_full_path"@,
            or_empty(resolved_path(link.link_info, link.link_target_id_list)),
        ),
        ("target_modification_time"@, filetime_text(header.mtime)),
        ("target_access_time"@, filetime_text(header.atime)),
        ("target_creation_time"@, filetime_text(header.ctime)),
        ("target_size"@, decimal_text(header.file_size as nat)),
        ("target_hostname"@, or_empty(target_hostname(link.extra_data))),
        ("lnk_full_path"@, link_file_path(metadata)),
        (
            "lnk_modification_time"@,
            link_file_time(
                match metadata {
                    Some(m) => Some(m.mtime),
                    None => None,
                },
            ),
        ),
        (
            "lnk_access_time"@,
            link_file_time(
                match metadata {
                    Some(m) => Some(m.atime),
                    None => None,
                },
            ),
        ),
        (
            "lnk_creation_time"@,
            link_file_time(
                match metadata {
                    Some(m) => Some(m.ctime),
                    None => None,
                },
            ),
        ),
    ]
}

/// The keys and values that `fields` hold, as character sequences.
pub open spec fn fields_view(fields: Seq<(String, String)>) -> Seq<(Seq<char>, Seq<char>)> {
    Seq::new(fields.len(), |i: int| (fields[i].0@, fields[i].1@))
}

/// Decodes the target identifier list at `at` where `present`, and gives
/// the offset after it.
fn read_id_list_slot(buf: &[u8], present: bool, at: usize) -> (r: Result<
    (Option<LinkTargetIDList>, usize),
    LnkError,
>)
    requires
        at <= buf@.len(),
    ensures
        match r {
            Ok((list, end)) => id_list_slot(buf@, present, at as int) == Ok::<_, LnkError>(
                (opt_view(list), end as int),
            ) && end <= buf@.len() && list.is_some() == present,
            Err(e) => id_list_slot(buf@, present, at as int) == Err::<
                (Option<LinkTargetIDListView>, int),
                _,
            >(e),
        },
{
    proof {
        reveal(id_list_slot);
    }
    if !present {
        return Ok((None, at));
    }
    match LinkTargetIDList::from_buffer(slice_subrange(buf, at, buf.len())) {
        Ok(list) => {
            let end: usize = at + list.encoded_len();
            Ok((Some(list), end))
        },
        Err(e) => Err(e),
    }
}

/// Decodes the link-location descriptor at `at` where `present`, and gives
/// the offset after it.
fn read_link_info_slot(buf: &[u8], present: bool, at: usize) -> (r: Result<
    (Option<LinkInfo>, usize),
    LnkError,
>)
    requires
        at <= buf@.len(),
    ensures
        match r {
            Ok((info, end)) => link_info_slot(buf@, present, at as int) == Ok::<_, LnkError>(
                (opt_view(info), end as int),
            ) && end <= buf@.len() && info.is_some() == present,
            Err(e) => link_info_slot(buf@, present, at as int) == Err::<
                (Option<LinkInfoView>, int),
                _,
            >(e),
        },
{
    proof {
        reveal(link_info_slot);
    }
    if !present {
        return Ok((None, at));
    }
    match LinkInfo::from_buffer(slice_subrange(buf, at, buf.len())) {
        Ok(info) => {
            let end: usize = at + info.encoded_len();
            Ok((Some(info), end))
        },
        Err(e) => Err(e),
    }
}

/// Decodes the string field at `at` where `present`, and gives the offset
/// after it.
fn read_string_slot(buf: &[u8], present: bool, unicode: bool, at: usize) -> (r: Result<
    (Option<StringData>, usize),
    LnkError,
>)
    requires
        at <= buf@.len(),
    ensures
        match r {
            Ok((text, end)) => string_slot(buf@, present, unicode, at as int) == Ok::<
                _,
                LnkError,
            >((opt_view(text), end as int)) && end <= buf@.len() && text.is_some() == present,
            Err(e) => string_slot(buf@, present, unicode, at as int) == Err::<
                (Option<StringDataView>, int),
                _,
            >(e),
        },
{
    proof {
        reveal(string_slot);
    }
    if !present {
        return Ok((None, at));
    }
    let tail = slice_subrange(buf, at, buf.len());
    match StringData::from_buffer(tail, unicode) {
        Ok(text) => {
            let end: usize = at + text.encoded_len(unicode);
            Ok((Some(text), end))
        },
        Err(e) => Err(e),
    }
}

/// Each optional member of a decoded link is there exactly where its header
/// has the flag for it.
pub proof fn lemma_presence_follows_flags(s: Seq<u8>)
    requires
        spec_lnk(s).is_ok(),
    ensures
        presence_follows_flags(spec_lnk(s).unwrap()),
{
    reveal(id_list_slot);
    reveal(link_info_slot);
    reveal(string_slot);
}

/// Decoding is a function of the bytes: whatever two decodings of the same
/// bytes gave, they hold the same, field for field, and failed alike where
/// they failed.
pub proof fn lemma_decoding_is_a_function(
    s: Seq<u8>,
    first: Result<Lnk, LnkError>,
    second: Result<Lnk, LnkError>,
)
    requires
        view_result(first) == spec_lnk(s),
        view_result(second) == spec_lnk(s),
    ensures
        view_result(first) == view_result(second),
{
}

/// The path of the link-location descriptor comes first: where it has one,
/// that is the path of the link, whatever the target identifier list
/// yields.
pub proof fn lemma_link_info_path_comes_first(
    link_info: LinkInfoView,
    link_target_id_list: Option<LinkTargetIDListView>,
)
    requires
        link_info_path(link_info).is_some(),
    ensures
        resolved_path(Some(link_info), link_target_id_list) == link_info_path(link_info),
{
}

/// A header that announces a member, with no byte after the members before
/// it, fails the decode for want of data.
pub proof fn lemma_announced_name_must_follow(s: Seq<u8>)
    requires
        spec_header(s) matches Ok(header) && !header.flags.has_link_target_id_list
            && !header.flags.has_link_info && header.flags.has_name,
        s.len() == HEADER_LEN,
    ensures
        spec_lnk(s) == Err::<LnkView, _>(LnkError::TruncatedDataError),
{
    reveal(id_list_slot);
    reveal(link_info_slot);
    reveal(string_slot);
}

/// The five strings of a link.
pub struct LinkStrings {
    /// The description of the link.
    pub name_string: Option<StringData>,
    /// The path of the target relative to the link.
    pub relative_path: Option<StringData>,
    /// The directory in which the target is started.
    pub working_dir: Option<StringData>,
    /// The arguments that the target is started with.
    pub command_line_arguments: Option<StringData>,
    /// Where the icon of the link is.
    pub icon_location: Option<StringData>,
}

impl View for LinkStrings {
    type V = LinkStringsView;

    open spec fn view(&self) -> LinkStringsView {
        LinkStringsView {
            name_string: opt_view(self.name_string),
            relative_path: opt_view(self.relative_path),
            working_dir: opt_view(self.working_dir),
            command_line_arguments: opt_view(self.command_line_arguments),
            icon_location: opt_view(self.icon_location),
        }
    }
}

/// Whether each of `strings` is there exactly where `flags` has its flag.
pub open spec fn strings_follow_flags(strings: LinkStringsView, flags: LinkFlags) -> bool {
    &&& strings.name_string.is_some() <==> flags.has_name
    &&& strings.relative_path.is_some() <==> flags.has_relative_path
    &&& strings.working_dir.is_some() <==> flags.has_working_dir
    &&& strings.command_line_arguments.is_some() <==> flags.has_arguments
    &&& strings.icon_location.is_some() <==> flags.has_icon_location
}

/// Decodes the five strings that start at `at`, and gives the offset after
/// the last.
fn read_strings(buf: &[u8], flags: LinkFlags, at: usize) -> (r: Result<
    (LinkStrings, usize),
    LnkError,
>)
    requires
        at <= buf@.len(),
    ensures
        match r {
            Ok((strings, end)) => strings_slot(buf@, flags, at as int) == Ok::<_, LnkError>(
                (strings@, end as int),
            ) && end <= buf@.len() && strings_follow_flags(strings@, flags),
            Err(e) => strings_slot(buf@, flags, at as int) == Err::<(LinkStringsView, int), _>(e),
        },
{
    let unicode: bool = flags.is_unicode;
    let (name_string, at) = match read_string_slot(buf, flags.has_name, unicode, at) {
        Ok(slot) => slot,
        Err(e) => {
            return Err(e);
        },
    };
    let (relative_path, at) = match read_string_slot(buf, flags.has_relative_path, unicode, at) {
        Ok(slot) => slot,
        Err(e) => {
            return Err(e);
        },
    };
    let (working_dir, at) = match read_string_slot(buf, flags.has_working_dir, unicode, at) {
        Ok(slot) => slot,
        Err(e) => {
            return Err(e);
        },
    };
    let (command_line_arguments, at) = match read_string_slot(
        buf,
        flags.has_arguments,
        unicode,
        at,
    ) {
        Ok(slot) => slot,
        Err(e) => {
            return Err(e);
        },
    };
    let (icon_location, at) = match read_string_slot(buf, flags.has_icon_location, unicode, at) {
        Ok(slot) => slot,
        Err(e) => {
            return Err(e);
        },
    };
    Ok(
        (
            LinkStrings {
                name_string,
                relative_path,
                working_dir,
                command_line_arguments,
                icon_location,
            },
            at,
        ),
    )
}

impl Lnk {
    /// Decodes a shell link from the bytes of its file.
    pub fn from_buffer(buf: &[u8]) -> (r: Result<Lnk, LnkError>)
        ensures
            view_result(r) == spec_lnk(buf@),
            r matches Ok(link) ==> presence_follows_flags(link@),
    {
        match ShellLinkHeader::from_buffer(buf) {
            Ok(header) => Lnk::members(buf, header),
            Err(e) => Err(e),
        }
    }

    /// Decodes what follows the header `shell_link_header` in `buf`.
    fn members(buf: &[u8], shell_link_header: ShellLinkHeader) -> (r: Result<Lnk, LnkError>)
        requires
            buf@.len() >= HEADER_LEN,
        ensures
            view_result(r) == spec_members(buf@, shell_link_header),
            r matches Ok(link) ==> presence_follows_flags(link@),
    {
        let flags = shell_link_header.flags;
        let (link_target_id_list, at) = match read_id_list_slot(
            buf,
            flags.has_link_target_id_list,
            HEADER_LEN,
        ) {
            Ok(slot) => slot,
            Err(e) => {
                return Err(e);
            },
        };
        let (link_info, at) = match read_link_info_slot(buf, flags.has_link_info, at) {
            Ok(slot) => slot,
            Err(e) => {
                return Err(e);
            },
        };
        let (strings, at) = match read_strings(buf, flags, at) {
            Ok(slot) => slot,
            Err(e) => {
                return Err(e);
            },
        };
        let extra_data = match ExtraData::from_buffer(slice_subrange(buf, at, buf.len())) {
            Ok(extra) => Some(extra),
            Err(_) => None,
        };
        let mut link = Lnk {
            target_full_path: None,
            lnk_file_metadata: None,
            shell_link_header,
            link_target_id_list,
            link_info,
            name_string: strings.name_string,
            relative_path: strings.relative_path,
            working_dir: strings.working_dir,
            command_line_arguments: strings.command_line_arguments,
            icon_location: strings.icon_location,
            extra_data,
        };
        let target_full_path = link.path();
        link.target_full_path = target_full_path;
        Ok(link)
    }

    /// The path that the link resolves to: that of its link-location
    /// descriptor where it has one, else the fragment that its target
    /// identifier list yields. `None` where neither gives a path.
    pub fn path(&self) -> (r: Option<String>)
        ensures
            opt_text(r) == resolved_path(self@.link_info, self@.link_target_id_list),
    {
        let from_info = match &self.link_info {
            Some(info) => info.path(),
            None => None,
        };
        match from_info {
            Some(path) => Some(path),
            None => match &self.link_target_id_list {
                Some(list) => list.path(),
                None => None,
            },
        }
    }

    /// The machine that the target was last known to be on: the one that the
    /// first tracker block names. `None` where the link has no tracker
    /// block.
    pub fn hostname(&self) -> (r: Option<&String>)
        ensures
            (match r {
                Some(name) => Some(name@),
                None => None,
            }) == target_hostname(self@.extra_data),
    {
        match &self.extra_data {
            Some(extra) => extra.tracker_machine_id(),
            None => None,
        }
    }

    /// The flat record of the link: ten keys in a fixed order, each with its
    /// value as text.
    pub fn normalize(&self) -> (r: Vec<(String, String)>)
        ensures
            fields_view(r@) == record_of(self@),
    {
        let target_full_path = match self.path() {
            Some(path) => path,
            None => String::new(),
        };
        let target_hostname = match self.hostname() {
            Some(name) => name.clone(),
            None => String::new(),
        };
        let header = &self.shell_link_header;
        let (lnk_full_path, lnk_mtime, lnk_atime, lnk_ctime) = match &self.lnk_file_metadata {
            Some(m) => (
                m.full_path.clone(),
                format_filetime(m.mtime),
                format_filetime(m.atime),
                format_filetime(m.ctime),
            ),
            None => (String::new(), String::new(), String::new(), String::new()),
        };
        let mut fields: Vec<(String, String)> = Vec::new();
        fields.push((String::from_str("target_full_path"), target_full_path));
        fields.push(
            (String::from_str("target_modification_time"), format_filetime(header.mtime)),
        );
        fields.push((String::from_str("target_access_time"), format_filetime(header.atime)));
        fields.push((String::from_str("target_creation_time"), format_filetime(header.ctime)));
        fields.push((String::from_str("target_size"), format_decimal(header.file_size)));
        fields.push((String::from_str("target_hostname"), target_hostname));
        fields.push((String::from_str("lnk_full_path"), lnk_full_path));
        fields.push((String::from_str("lnk_modification_time"), lnk_mtime));
        fields.push((String::from_str("lnk_access_time"), lnk_atime));
        fields.push((String::from_str("lnk_creation_time"), lnk_ctime));
        assert(fields_view(fields@) =~= record_of(self@));
        fields
    }
}

} // verus!
