//! The protocol's mailbox representation.
//!
//! In this scope only the name and the id are populated from the backend;
//! rights and counts default to zero and false, a documented stub.

use vstd::prelude::*;
use vstd::string::*;

verus! {

/// What a caller may do with a mailbox.
#[derive(Debug, PartialEq, Eq, Clone, Copy)]
pub struct MailboxRights {
    pub may_read_items: bool,
    pub may_add_items: bool,
    pub may_remove_items: bool,
    pub may_set_seen: bool,
    pub may_set_keywords: bool,
    pub may_create_child: bool,
    pub may_rename: bool,
    pub may_delete: bool,
    pub may_submit: bool,
}

impl MailboxRights {
    /// The stub rights: everything denied.
    pub fn none() -> (r: MailboxRights)
        ensures
            r == MailboxRights::spec_none(),
    {
        MailboxRights {
            may_read_items: false,
            may_add_items: false,
            may_remove_items: false,
            may_set_seen: false,
            may_set_keywords: false,
            may_create_child: false,
            may_rename: false,
            may_delete: false,
            may_submit: false,
        }
    }

    pub open spec fn spec_none() -> MailboxRights {
        MailboxRights {
            may_read_items: false,
            may_add_items: false,
            may_remove_items: false,
            may_set_seen: false,
            may_set_keywords: false,
            may_create_child: false,
            may_rename: false,
            may_delete: false,
            may_submit: false,
        }
    }
}

/// One mailbox of the account.
#[derive(Debug, PartialEq)]
pub struct Mailbox {
    pub id: String,
    pub name: String,
    pub parent_id: Option<String>,
    pub role: Option<String>,
    pub sort_order: u64,
    pub total_emails: u64,
    pub unread_emails: u64,
    pub total_threads: u64,
    pub unread_threads: u64,
    pub my_rights: MailboxRights,
    pub is_subscribed: bool,
}

/// The mathematical value of a `Mailbox`.
#[verifier::ext_equal]
pub struct MailboxV {
    pub id: Seq<char>,
    pub name: Seq<char>,
    pub parent_id: Option<Seq<char>>,
    pub role: Option<Seq<char>>,
    pub sort_order: u64,
    pub total_emails: u64,
    pub unread_emails: u64,
    pub total_threads: u64,
    pub unread_threads: u64,
    pub my_rights: MailboxRights,
    pub is_subscribed: bool,
}

impl DeepView for Mailbox {
    type V = MailboxV;

    open spec fn deep_view(&self) -> MailboxV {
        MailboxV {
            id: self.id@,
            name: self.name@,
            parent_id: self.parent_id.deep_view(),
            role: self.role.deep_view(),
            sort_order: self.sort_order,
            total_emails: self.total_emails,
            unread_emails: self.unread_emails,
            total_threads: self.total_threads,
            unread_threads: self.unread_threads,
            my_rights: self.my_rights,
            is_subscribed: self.is_subscribed,
        }
    }
}

/// The stub view of a mailbox known only by name: the name doubles as the
/// id, filters and counts are defaulted, rights are all denied.
pub open spec fn spec_stub_mailbox(name: Seq<char>) -> MailboxV {
    MailboxV {
        id: name,
        name: name,
        parent_id: None,
        role: None,
        sort_order: 0,
        total_emails: 0,
        unread_emails: 0,
        total_threads: 0,
        unread_threads: 0,
        my_rights: MailboxRights::spec_none(),
        is_subscribed: false,
    }
}

impl Mailbox {
    /// A mailbox populated from a backend listing entry, which carries only
    /// the name.
    pub fn stub(name: String) -> (r: Mailbox)
        ensures
            r.deep_view() == spec_stub_mailbox(name@),
    {
        let id = name.clone();
        let r = Mailbox {
            id,
            name,
            parent_id: None,
            role: None,
            sort_order: 0,
            total_emails: 0,
            unread_emails: 0,
            total_threads: 0,
            unread_threads: 0,
            my_rights: MailboxRights::none(),
            is_subscribed: false,
        };
        proof {
            assert(r.deep_view() =~= spec_stub_mailbox(r.name@));
        }
        r
    }
}

} // verus!
