//! The provider's data as the updater sees it.

use vstd::prelude::*;

verus! {

/// The provider's current state of the managed A record.
#[derive(Debug)]
pub struct DnsRecord {
    /// The identifier that the provider gave the record.
    pub id: String,
    /// The IPv4 address that the record points at, as text.
    pub content: String,
    /// The free-text comment stored with the record.
    pub comment: String,
}

/// A record as plain text values.
pub struct DnsRecordView {
    pub id: Seq<char>,
    pub content: Seq<char>,
    pub comment: Seq<char>,
}

impl View for DnsRecord {
    type V = DnsRecordView;

    open spec fn view(&self) -> DnsRecordView {
        DnsRecordView { id: self.id@, content: self.content@, comment: self.comment@ }
    }
}

impl DeepView for DnsRecord {
    type V = DnsRecordView;

    open spec fn deep_view(&self) -> DnsRecordView {
        self@
    }
}

impl Clone for DnsRecord {
    fn clone(&self) -> (copy: Self)
        ensures
            copy == *self,
    {
        DnsRecord {
            id: self.id.clone(),
            content: self.content.clone(),
            comment: self.comment.clone(),
        }
    }
}

/// A DNS zone, known by the identifier that the provider gave it.
#[derive(Debug)]
pub struct Zone {
    pub id: String,
}

/// The wrapper around every answer of the provider's API.
#[derive(Debug)]
pub struct Envelope<T> {
    /// What was asked for.
    pub result: T,
    /// Whether the provider accepted the request.
    pub success: bool,
}

impl<T: DeepView> DeepView for Envelope<T> {
    type V = Envelope<T::V>;

    open spec fn deep_view(&self) -> Envelope<T::V> {
        Envelope { result: self.result.deep_view(), success: self.success }
    }
}

/// The fields of a record that an update sets.
#[derive(Debug)]
pub struct UpdateRequest {
    pub content: String,
    pub comment: String,
}

/// An update as plain text values.
pub struct UpdateRequestView {
    pub content: Seq<char>,
    pub comment: Seq<char>,
}

impl View for UpdateRequest {
    type V = UpdateRequestView;

    open spec fn view(&self) -> UpdateRequestView {
        UpdateRequestView { content: self.content@, comment: self.comment@ }
    }
}

} // verus!
