use vstd::prelude::*;

verus! {

/// `n` rounded up to the next multiple of `align`.
pub open spec fn align_up(n: int, align: int) -> int
    recommends
        align > 0,
{
    ((n + align - 1) / align) * align
}

/// The platform parameters of the ancillary-record layout.
///
/// The header of an ancillary record is a length field of `len_width` bytes
/// followed by two 32-bit fields, the record category ("level") and the
/// record type, the whole header padded to a multiple of `align`; the record
/// content (here: one descriptor value of `fd_len` bytes) follows the header
/// directly.  All sizes and constants are supplied by the caller at
/// construction time from the platform's own definitions; nothing here is
/// hard-coded.
#[derive(Clone, Copy, Debug, PartialEq, Eq, Structural)]
pub struct Platform {
    /// Width in bytes of the record header's length field.
    pub len_width: usize,
    /// Alignment unit of the header and of record boundaries.
    pub align: usize,
    /// Encoded size in bytes of one descriptor value.
    pub fd_len: usize,
    /// The "socket-level" record category value.
    pub sol_socket: i32,
    /// The "pass descriptor rights" record type value.
    pub scm_rights: i32,
    /// Receive-flag bit reporting a truncated data portion.
    pub msg_trunc: i32,
    /// Receive-flag bit reporting a truncated control portion.
    pub msg_ctrunc: i32,
}

impl Platform {
    /// The layouts this library understands: a length field as wide as the
    /// alignment unit (four or eight bytes, so the two 32-bit fields that
    /// follow it land on a header whose size is already a multiple of the
    /// alignment), and a descriptor encoded as one 32-bit value.
    pub open spec fn wf(self) -> bool {
        &&& (self.len_width == 4 || self.len_width == 8)
        &&& self.align == self.len_width
        &&& self.fd_len == 4
    }

    /// Size in bytes of the record header: the length field plus the two
    /// 32-bit category and type fields.
    pub open spec fn spec_header_len(self) -> int {
        self.len_width + 8
    }

    /// The value the header's length field must carry for a record holding
    /// exactly one descriptor: the header plus one descriptor value.
    pub open spec fn spec_record_len(self) -> int {
        self.spec_header_len() + self.fd_len
    }

    /// Size in bytes of the control block holding exactly one such record:
    /// the record, padded to the alignment unit.
    pub open spec fn spec_space(self) -> int {
        self.spec_header_len() + align_up(self.fd_len as int, self.align as int)
    }

    /// Builds a layout from the platform's sizes and constants, refusing any
    /// combination this library cannot lay out exactly.
    pub fn new(
        len_width: usize,
        align: usize,
        fd_len: usize,
        sol_socket: i32,
        scm_rights: i32,
        msg_trunc: i32,
        msg_ctrunc: i32,
    ) -> (r: Option<Platform>)
        ensures
            match r {
                Some(p) => {
                    &&& p.wf()
                    &&& p == (Platform {
                        len_width,
                        align,
                        fd_len,
                        sol_socket,
                        scm_rights,
                        msg_trunc,
                        msg_ctrunc,
                    })
                },
                None => !(Platform {
                    len_width,
                    align,
                    fd_len,
                    sol_socket,
                    scm_rights,
                    msg_trunc,
                    msg_ctrunc,
                }).wf(),
            },
    {
        if (len_width == 4 || len_width == 8) && align == len_width && fd_len == 4 {
            Some(
                Platform {
                    len_width,
                    align,
                    fd_len,
                    sol_socket,
                    scm_rights,
                    msg_trunc,
                    msg_ctrunc,
                },
            )
        } else {
            None
        }
    }

    /// Size in bytes of the record header.
    pub fn header_len(&self) -> (r: usize)
        requires
            self.wf(),
        ensures
            r as int == self.spec_header_len(),
    {
        self.len_width + 8
    }

    /// The exact length-field value of a record carrying one descriptor.
    pub fn record_len(&self) -> (r: usize)
        requires
            self.wf(),
        ensures
            r as int == self.spec_record_len(),
    {
        self.header_len() + self.fd_len
    }

    /// Size in bytes of a control block holding exactly one such record.
    pub fn space(&self) -> (r: usize)
        requires
            self.wf(),
        ensures
            r as int == self.spec_space(),
    {
        self.header_len() + (self.fd_len + self.align - 1) / self.align * self.align
    }
}

} // verus!
