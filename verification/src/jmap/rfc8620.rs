//! The session and capability descriptor served to clients before they use
//! the protocol.

use vstd::prelude::*;

verus! {

/// The per-session descriptor: capabilities, accounts and endpoint URLs.
#[derive(Debug, PartialEq)]
pub struct JmapSession {
    pub capabilities: Capabilities,
    pub accounts: Vec<(String, Account)>,
    pub primary_accounts: Vec<(String, String)>,
    pub username: String,
    pub api_url: String,
    pub download_url: String,
    pub upload_url: String,
    pub event_source_url: String,
    pub state: String,
}

/// The declared capability sets.
#[derive(Debug, PartialEq)]
pub struct Capabilities {
    pub core: CoreCapabilities,
    pub mail: EmptyCapabilities,
}

/// The core capability limits.
#[derive(Debug, PartialEq, Eq, Clone)]
pub struct CoreCapabilities {
    pub max_size_upload: u64,
    pub max_concurrent_upload: u64,
    pub max_size_request: u64,
    pub max_concurrent_requests: u64,
    pub max_calls_in_request: u64,
    pub max_objects_in_get: u64,
    pub max_objects_in_set: u64,
    pub collation_algorithms: Vec<String>,
}

/// A capability set with no members.
#[derive(Debug, PartialEq, Eq, Clone, Copy)]
pub struct EmptyCapabilities {}

/// One account the authenticated user may act as.
#[derive(Debug, PartialEq)]
pub struct Account {
    pub name: String,
    pub is_personal: bool,
    pub is_read_only: bool,
    pub account_capabilities: AcountCapabilities,
}

/// The per-account capability sets.
#[derive(Debug, PartialEq)]
pub struct AcountCapabilities {
    pub mail: AccountMailCapabilities,
}

/// The per-account mail limits.
#[derive(Debug, PartialEq)]
pub struct AccountMailCapabilities {
    pub max_mailboxes_per_email: Option<u64>,
    pub max_mailbox_depth: Option<u64>,
    pub max_size_mailbox_name: u64,
    pub max_size_attachments_per_email: u64,
    pub email_query_sort_options: Vec<String>,
    pub may_create_top_level_mailbox: bool,
}

/// The session descriptor for an authenticated user: the gateway's static
/// capability limits, one personal account named after the user, and the
/// endpoint URLs. The state token starts empty; the server stamps it after
/// serialization.
pub fn build_session(username: &String) -> (r: JmapSession)
    ensures
        r.username@ == username@,
        r.api_url@ == "/jmap"@,
        r.accounts@.len() == 1,
        r.accounts@[0].0@ == username@,
        r.accounts@[0].1.name@ == username@,
        r.accounts@[0].1.is_personal,
        !r.accounts@[0].1.is_read_only,
        r.primary_accounts@.len() == 1,
        r.primary_accounts@[0].0@ == "urn:ietf:params:jmap:mail"@,
        r.primary_accounts@[0].1@ == username@,
        r.capabilities.core.max_size_upload == 50000000,
        r.capabilities.core.max_concurrent_upload == 4,
        r.capabilities.core.max_size_request == 10000000,
        r.capabilities.core.max_concurrent_requests == 4,
        r.capabilities.core.max_calls_in_request == 16,
        r.capabilities.core.max_objects_in_get == 500,
        r.capabilities.core.max_objects_in_set == 500,
        r.capabilities.core.collation_algorithms@.len() == 0,
        r.accounts@[0].1.account_capabilities.mail.max_mailboxes_per_email == Some(1000u64),
        r.accounts@[0].1.account_capabilities.mail.max_mailbox_depth is None,
        r.accounts@[0].1.account_capabilities.mail.max_size_mailbox_name == 490,
        r.accounts@[0].1.account_capabilities.mail.max_size_attachments_per_email == 50000000,
        r.accounts@[0].1.account_capabilities.mail.may_create_top_level_mailbox,
        r.state@ == Seq::<char>::empty(),
{
    let mut sort_options: Vec<String> = Vec::new();
    sort_options.push(String::from_str("receivedAt"));
    sort_options.push(String::from_str("from"));
    sort_options.push(String::from_str("to"));
    sort_options.push(String::from_str("subject"));
    sort_options.push(String::from_str("size"));
    sort_options.push(String::from_str("header.x-spam-score"));
    let account = Account {
        name: username.clone(),
        is_personal: true,
        is_read_only: false,
        account_capabilities: AcountCapabilities {
            mail: AccountMailCapabilities {
                max_mailboxes_per_email: Some(1000),
                max_mailbox_depth: None,
                max_size_mailbox_name: 490,
                max_size_attachments_per_email: 50000000,
                email_query_sort_options: sort_options,
                may_create_top_level_mailbox: true,
            },
        },
    };
    let mut accounts: Vec<(String, Account)> = Vec::new();
    accounts.push((username.clone(), account));
    let mut primary_accounts: Vec<(String, String)> = Vec::new();
    primary_accounts.push((String::from_str("urn:ietf:params:jmap:mail"), username.clone()));
    JmapSession {
        capabilities: Capabilities {
            core: CoreCapabilities {
                max_size_upload: 50000000,
                max_concurrent_upload: 4,
                max_size_request: 10000000,
                max_concurrent_requests: 4,
                max_calls_in_request: 16,
                max_objects_in_get: 500,
                max_objects_in_set: 500,
                collation_algorithms: Vec::new(),
            },
            mail: EmptyCapabilities {  },
        },
        accounts,
        primary_accounts,
        username: username.clone(),
        api_url: String::from_str("/jmap"),
        download_url: String::from_str("/download/{accountId}/{blobId}/{name}?accept={type}"),
        upload_url: String::from_str("/upload/{accountId}"),
        event_source_url: String::from_str(
            "/eventsource?types={types}&closeafter={closeafter}&ping={ping}",
        ),
        state: String::new(),
    }
}

} // verus!
