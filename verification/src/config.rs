//! The settings that the server starts with.

use crate::handle_table::token_view;
use vstd::prelude::*;

verus! {

/// Where the objects live.
#[derive(Debug, PartialEq)]
pub struct S3Config {
    /// The name of a custom endpoint, if the bucket is not with the default
    /// provider.
    pub s3_endpoint_name: Option<String>,
    /// The region of the endpoint.
    pub s3_endpoint_region: String,
    /// The bucket that holds the objects.
    pub s3_bucket: String,
}

/// The settings of the server.
#[derive(Debug, PartialEq)]
pub struct DrayConfig {
    /// The address that the server listens on.
    pub host: String,
    /// Where the objects live.
    pub s3: S3Config,
}

/// The settings of the server, as plain values.
pub struct DrayConfigView {
    pub host: Seq<char>,
    pub s3_endpoint_name: Option<Seq<char>>,
    pub s3_endpoint_region: Seq<char>,
    pub s3_bucket: Seq<char>,
}

impl View for DrayConfig {
    type V = DrayConfigView;

    open spec fn view(&self) -> DrayConfigView {
        DrayConfigView {
            host: self.host@,
            s3_endpoint_name: token_view(self.s3.s3_endpoint_name),
            s3_endpoint_region: self.s3.s3_endpoint_region@,
            s3_bucket: self.s3.s3_bucket@,
        }
    }
}

impl DrayConfig {
    /// A second copy of the settings, for a connection of its own.
    pub fn duplicate(&self) -> (copy: DrayConfig)
        ensures
            copy@ == self@,
    {
        let s3_endpoint_name = match &self.s3.s3_endpoint_name {
            Some(name) => Some(name.clone()),
            None => None,
        };
        DrayConfig {
            host: self.host.clone(),
            s3: S3Config {
                s3_endpoint_name,
                s3_endpoint_region: self.s3.s3_endpoint_region.clone(),
                s3_bucket: self.s3.s3_bucket.clone(),
            },
        }
    }
}

} // verus!
