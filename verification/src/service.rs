//! The client's configuration and the part of the client that decides.

use vstd::prelude::*;
use crate::endpoint::{build_url, endpoint_url, Endpoint};
use crate::protocol::{first_stage, RetrievalView};
use crate::retrieval::Retrieval;
use crate::submission::{fresh_submission, Submission};

verus! {

/// Runtime configuration for the DA service.
#[derive(Clone, Debug, PartialEq)]
pub struct DaServiceConfig {
    /// The base address of the light client.
    pub light_client_url: String,
    /// The address of the chain node.
    pub node_client_url: String,
    /// The seed from which the signing key is derived.
    pub seed: String,
    /// The application identifier that tags submitted blobs.
    pub app_id: u32,
}

/// The client of the data-availability layer, as far as it decides: where
/// the light client is asked, how a block is retrieved, and what is
/// submitted. The connection to the chain node and the signing key stay with
/// the driver.
#[derive(Clone, Debug)]
pub struct DaProvider {
    /// The base address of the light client.
    pub light_client_url: String,
    /// The application identifier that tags submitted blobs.
    pub app_id: u32,
}

/// The retrieval of the block at `height` from a light client at `base`,
/// before it has begun.
pub open spec fn retrieval_at<H>(base: Seq<char>, height: u64) -> RetrievalView<H> {
    RetrievalView {
        height,
        confidence_url: endpoint_url(base, Endpoint::Confidence, height),
        appdata_url: endpoint_url(base, Endpoint::Appdata, height),
        stage: first_stage(),
    }
}

impl DaProvider {
    /// The client for a configuration. It keeps the light client's address
    /// and the application identifier, and lets go of the seed.
    pub fn new(config: DaServiceConfig) -> (provider: DaProvider)
        ensures
            provider.light_client_url@ == config.light_client_url@,
            provider.app_id == config.app_id,
    {
        DaProvider { light_client_url: config.light_client_url, app_id: config.app_id }
    }

    /// The address of the application-data endpoint for a block.
    pub fn appdata_url(&self, block_num: u64) -> (url: String)
        ensures
            url@ == endpoint_url(self.light_client_url@, Endpoint::Appdata, block_num),
    {
        build_url(&self.light_client_url, Endpoint::Appdata, block_num)
    }

    /// The address of the confidence endpoint for a block.
    pub fn confidence_url(&self, block_num: u64) -> (url: String)
        ensures
            url@ == endpoint_url(self.light_client_url@, Endpoint::Confidence, block_num),
    {
        build_url(&self.light_client_url, Endpoint::Confidence, block_num)
    }

    /// Begins the retrieval of the finalized block at `height`: it stands at
    /// the confidence gate and knows the two addresses to ask.
    pub fn get_finalized_at<H>(&self, height: u64) -> (retrieval: Retrieval<H>)
        ensures
            retrieval@ == retrieval_at::<H>(self.light_client_url@, height),
    {
        let confidence_url = self.confidence_url(height);
        let appdata_url = self.appdata_url(height);
        Retrieval::begin(height, confidence_url, appdata_url)
    }

    /// Begins the retrieval of the block at `height`. A block counts as
    /// final once the node reports its hash, so this is the retrieval of the
    /// finalized block.
    pub fn get_block_at<H>(&self, height: u64) -> (retrieval: Retrieval<H>)
        ensures
            retrieval@ == retrieval_at::<H>(self.light_client_url@, height),
    {
        self.get_finalized_at(height)
    }

    /// Begins the submission of `blob`, tagged with this client's
    /// application identifier.
    pub fn send_transaction(&self, blob: &[u8]) -> (submission: Submission)
        ensures
            submission@ == fresh_submission(self.app_id, blob@),
    {
        Submission::begin(self.app_id, blob)
    }
}

} // verus!
