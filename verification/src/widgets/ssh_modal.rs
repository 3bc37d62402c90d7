//! The popup with the command to reach a job's machine over SSH.

use vstd::prelude::*;
use vstd::utf8::*;
use crate::api::models::Job;
use crate::keys::{KeyCode, KeyEvent};
use crate::text::{concat, decimal, u64_to_string, utf8_prefix};

verus! {

broadcast use vstd::utf8::encode_utf8_decode_utf8;

/// What a key in the SSH popup asks for.
#[derive(Debug, Clone, Copy, PartialEq, Eq, Structural)]
pub enum SshAction {
    /// Nothing.
    Nothing,
    /// Close the popup.
    Close,
}

/// Bytes of the job id that name its host.
pub const HOST_ID_BYTES: usize = 8;

/// The host part of a job id: its first eight bytes, or all of it when
/// shorter.
pub open spec fn host_id(id: Seq<char>) -> Seq<char> {
    if encode_utf8(id).len() <= HOST_ID_BYTES { id } else { utf8_prefix(id, HOST_ID_BYTES as int) }
}

/// The SSH command for a job: its number and the host named by its id.
pub open spec fn ssh_command_for(job_number: u32, id: Seq<char>) -> Seq<char> {
    "ssh -p 64535 "@ + decimal(job_number as nat) + "-90db2e@"@ + host_id(id) + ".circleci.com"@
}

/// The job id's length in bytes fits a `usize`, and the id can be cut
/// after its first eight bytes.
pub open spec fn id_cuttable(id: Seq<char>) -> bool {
    &&& encode_utf8(id).len() <= usize::MAX
    &&& encode_utf8(id).len() <= HOST_ID_BYTES || is_char_boundary(encode_utf8(id), HOST_ID_BYTES as int)
}

/// The SSH popup of a job.
pub struct SshModal {
    pub job: Job,
    pub ssh_command: String,
    pub visible: bool,
}

impl SshModal {
    /// A shown popup with the SSH command of `job`.
    pub fn new(job: Job) -> (r: Self)
        requires
            id_cuttable(job.id@),
        ensures
            r.job == job,
            r.ssh_command@ == ssh_command_for(job.job_number, job.id@),
            r.visible,
    {
        let id = job.id.as_str();
        let len = id.len();
        assert(len == encode_utf8(id@).len());
        let host = if len <= HOST_ID_BYTES {
            id
        } else {
            let (head, _tail) = id.split_at(HOST_ID_BYTES);
            assert(encode_utf8(head@) == encode_utf8(id@).subrange(0, HOST_ID_BYTES as int));
            assert(head@ == utf8_prefix(id@, HOST_ID_BYTES as int));
            head
        };
        let a = concat("ssh -p 64535 ", u64_to_string(job.job_number as u64).as_str());
        let b = concat(a.as_str(), "-90db2e@");
        let c = concat(b.as_str(), host);
        let ssh_command = concat(c.as_str(), ".circleci.com");
        SshModal { job, ssh_command, visible: true }
    }

    /// Esc, Enter and 'c' close the popup; other keys do nothing.
    pub fn handle_input(&mut self, key: KeyEvent) -> (r: SshAction)
        ensures
            r == if key.code == KeyCode::Char('c') || key.code == KeyCode::Enter || key.code == KeyCode::Esc {
                SshAction::Close
            } else {
                SshAction::Nothing
            },
            *final(self) == *old(self),
    {
        match key.code {
            KeyCode::Char('c') | KeyCode::Enter | KeyCode::Esc => SshAction::Close,
            _ => SshAction::Nothing,
        }
    }

    /// Whether the popup is shown.
    pub fn is_visible(&self) -> (r: bool)
        ensures
            r == self.visible,
    {
        self.visible
    }

    /// Hides the popup.
    pub fn dismiss(&mut self)
        ensures
            *final(self) == (SshModal { visible: false, ..*old(self) }),
    {
        self.visible = false;
    }
}

} // verus!
