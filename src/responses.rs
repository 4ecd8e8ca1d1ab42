//! The typed records of the container lease and access-policy operations.
use vstd::prelude::*;
use crate::decoder::{
    decode_headers, decode_spec, header_rule, lemma_decode_ok_fields, rules_view, text_at,
    timestamp_at, values_view, FieldKind, FieldValueView, HeaderRule, RuleView,
};
use crate::error::{Error, ErrorView};
use crate::executor::{check_status, RawResponse};

verus! {

/// The headers that every container response carries: entity tag, time of
/// last change, request id and date, all required.
pub open spec fn common_rules() -> Seq<RuleView> {
    seq![
        RuleView { header: "etag"@, required: true, kind: FieldKind::Text },
        RuleView { header: "last-modified"@, required: true, kind: FieldKind::Timestamp },
        RuleView { header: "x-ms-request-id"@, required: true, kind: FieldKind::Text },
        RuleView { header: "date"@, required: true, kind: FieldKind::Timestamp },
    ]
}

/// The rules of the access-policy response: the common headers, then the
/// optional public-access level.
pub open spec fn get_acl_rules() -> Seq<RuleView> {
    common_rules().push(
        RuleView { header: "x-ms-blob-public-access"@, required: false, kind: FieldKind::Text },
    )
}

fn common_header_rules() -> (r: Vec<HeaderRule>)
    ensures
        rules_view(r@) == common_rules(),
{
    let mut rules: Vec<HeaderRule> = Vec::new();
    rules.push(header_rule("etag", true, FieldKind::Text));
    rules.push(header_rule("last-modified", true, FieldKind::Timestamp));
    rules.push(header_rule("x-ms-request-id", true, FieldKind::Text));
    rules.push(header_rule("date", true, FieldKind::Timestamp));
    assert(rules_view(rules@) =~= common_rules());
    rules
}

/// The record of a lease release.
#[derive(Clone, Debug, PartialEq, Eq)]
pub struct ReleaseLeaseResponse {
    pub etag: String,
    /// Seconds since the Unix epoch.
    pub last_modified: i64,
    pub request_id: String,
    /// Seconds since the Unix epoch.
    pub date: i64,
}

impl ReleaseLeaseResponse {
    /// The record's fields as the decode of [`common_rules`] gives them.
    pub open spec fn fields(&self) -> Seq<Option<FieldValueView>> {
        seq![
            Some(FieldValueView::Text(self.etag@)),
            Some(FieldValueView::Timestamp(self.last_modified)),
            Some(FieldValueView::Text(self.request_id@)),
            Some(FieldValueView::Timestamp(self.date)),
        ]
    }

    /// Reads the record from response headers; fails on the first missing or
    /// malformed header.
    pub fn from_headers(headers: &Vec<(String, String)>) -> (r: Result<ReleaseLeaseResponse, Error>)
        ensures
            match decode_spec(common_rules(), headers@) {
                Ok(vs) => r matches Ok(rec) && rec.fields() == vs,
                Err(e) => r matches Err(x) && x@ == e,
            },
    {
        let rules = common_header_rules();
        proof {
            lemma_decode_ok_fields(common_rules(), headers@);
        }
        match decode_headers(&rules, headers) {
            Err(e) => Err(e),
            Ok(values) => {
                assert(values_view(values@).len() == values@.len());
                let etag = text_at(&values, 0);
                let last_modified = timestamp_at(&values, 1);
                let request_id = text_at(&values, 2);
                let date = timestamp_at(&values, 3);
                match (etag, last_modified, request_id, date) {
                    (Some(etag), Some(last_modified), Some(request_id), Some(date)) => {
                        let rec = ReleaseLeaseResponse { etag, last_modified, request_id, date };
                        assert(rec.fields() =~= values_view(values@));
                        Ok(rec)
                    },
                    _ => Err(Error::BodyParse(String::new())),
                }
            },
        }
    }
}

/// The record of a container access-policy request. The stored access
/// policies of the body are not read.
#[derive(Clone, Debug, PartialEq, Eq)]
pub struct GetACLResponse {
    pub etag: String,
    /// Seconds since the Unix epoch.
    pub last_modified: i64,
    pub request_id: String,
    /// Seconds since the Unix epoch.
    pub date: i64,
    /// The public-access level, where the container grants one.
    pub public_access: Option<String>,
}

impl GetACLResponse {
    /// The record's fields as the decode of [`get_acl_rules`] gives them.
    pub open spec fn fields(&self) -> Seq<Option<FieldValueView>> {
        seq![
            Some(FieldValueView::Text(self.etag@)),
            Some(FieldValueView::Timestamp(self.last_modified)),
            Some(FieldValueView::Text(self.request_id@)),
            Some(FieldValueView::Timestamp(self.date)),
            match self.public_access {
                Some(p) => Some(FieldValueView::Text(p@)),
                None => None,
            },
        ]
    }

    /// Reads the record from response headers; fails on the first missing or
    /// malformed header.
    pub fn from_headers(headers: &Vec<(String, String)>) -> (r: Result<GetACLResponse, Error>)
        ensures
            match decode_spec(get_acl_rules(), headers@) {
                Ok(vs) => r matches Ok(rec) && rec.fields() == vs,
                Err(e) => r matches Err(x) && x@ == e,
            },
    {
        let mut rules = common_header_rules();
        rules.push(header_rule("x-ms-blob-public-access", false, FieldKind::Text));
        assert(rules_view(rules@) =~= get_acl_rules());
        proof {
            lemma_decode_ok_fields(get_acl_rules(), headers@);
        }
        match decode_headers(&rules, headers) {
            Err(e) => Err(e),
            Ok(values) => {
                assert(values_view(values@).len() == values@.len());
                let etag = text_at(&values, 0);
                let last_modified = timestamp_at(&values, 1);
                let request_id = text_at(&values, 2);
                let date = timestamp_at(&values, 3);
                let public_access = text_at(&values, 4);
                match (etag, last_modified, request_id, date) {
                    (Some(etag), Some(last_modified), Some(request_id), Some(date)) => {
                        let rec = GetACLResponse {
                            etag,
                            last_modified,
                            request_id,
                            date,
                            public_access,
                        };
                        assert(rec.fields() =~= values_view(values@));
                        Ok(rec)
                    },
                    _ => Err(Error::BodyParse(String::new())),
                }
            },
        }
    }
}

/// What a response to the access-policy request decodes to: the record's
/// fields where the status is 200 and the headers decode, else the error.
pub open spec fn acl_outcome(response: RawResponse) -> Result<Seq<Option<FieldValueView>>, ErrorView> {
    if response.status == 200 {
        decode_spec(get_acl_rules(), response.headers@)
    } else {
        Err(ErrorView::UnexpectedStatus { status: response.status, body: response.body@ })
    }
}

/// A result of the access-policy request, by the record's fields or the
/// error's view.
pub open spec fn acl_result_view(r: Result<GetACLResponse, Error>) -> Result<
    Seq<Option<FieldValueView>>,
    ErrorView,
> {
    match r {
        Ok(rec) => Ok(rec.fields()),
        Err(e) => Err(e@),
    }
}

impl GetACLResponse {
    /// Checks the status (200 only) and decodes the headers.
    pub fn from_response(response: RawResponse) -> (r: Result<GetACLResponse, Error>)
        ensures
            acl_result_view(r) == acl_outcome(response),
    {
        let mut accepted: Vec<u16> = Vec::new();
        accepted.push(200);
        assert(accepted@.contains(response.status) <==> response.status == 200) by {
            assert(accepted@[0] == 200);
        }
        match check_status(response, &accepted) {
            Ok(resp) => GetACLResponse::from_headers(&resp.headers),
            Err(e) => Err(e),
        }
    }
}

} // verus!
