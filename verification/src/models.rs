//! The record that the worker embeds, and the text document derived from it.
//!
//! Timestamps are held as milliseconds; embedding vectors as the bit
//! patterns of their 32-bit float elements.

use vstd::prelude::*;
use vstd::string::StringExecFns;

use crate::strutil::decimal_string;
use crate::strutil::spec_decimal;

verus! {

#[derive(Debug, Clone)]
pub struct RepoOwner {
    pub login: String,
    pub avatar_url: String,
}

/// A repository record: the unit of work of the pipeline.
#[derive(Debug, Clone)]
pub struct Repo {
    /// Stable record id, used as lock key and write target.
    pub id: String,
    pub github_id: i64,
    pub name: String,
    pub full_name: String,
    pub description: Option<String>,
    pub url: String,
    pub stars: u32,
    pub language: Option<String>,
    pub owner: RepoOwner,
    pub is_private: bool,
    pub created_at_ms: u64,
    pub updated_at_ms: u64,
    /// Bit patterns of the stored embedding's elements, when one exists.
    pub embedding: Option<Vec<u32>>,
    pub embedding_generated_at_ms: Option<u64>,
}

impl Repo {
    /// A record needs an embedding when it has none, or when its source
    /// fields changed after the embedding was generated.
    pub open spec fn spec_needs_embedding(&self) -> bool {
        ||| self.embedding is None
        ||| match self.embedding_generated_at_ms {
            Some(t) => self.updated_at_ms > t,
            None => true,
        }
    }

    pub fn needs_embedding(&self) -> (r: bool)
        ensures
            r == self.spec_needs_embedding(),
    {
        self.embedding.is_none() || match self.embedding_generated_at_ms {
            Some(t) => self.updated_at_ms > t,
            None => true,
        }
    }

    /// The fixed document template: a `Repository:` line, optional
    /// `Description:` and `Language:` lines, then `Stars:` and `Owner:`,
    /// joined by single newlines.
    pub open spec fn spec_prepared_text(&self) -> Seq<char> {
        "Repository: "@ + self.full_name@ + "\n"@ + (match self.description {
            Some(d) => "Description: "@ + d@ + "\n"@,
            None => Seq::empty(),
        }) + (match self.language {
            Some(l) => "Language: "@ + l@ + "\n"@,
            None => Seq::empty(),
        }) + "Stars: "@ + spec_decimal(self.stars as nat) + "\n"@ + "Owner: "@ + self.owner.login@
    }

    /// Builds the document handed to the embedding provider.
    pub fn prepare_text_for_embedding(&self) -> (r: String)
        ensures
            r@ == self.spec_prepared_text(),
    {
        let mut s = "Repository: ".to_owned();
        s.append(self.full_name.as_str());
        s.append("\n");
        match &self.description {
            Some(d) => {
                s.append("Description: ");
                s.append(d.as_str());
                s.append("\n");
            },
            None => {},
        }
        match &self.language {
            Some(l) => {
                s.append("Language: ");
                s.append(l.as_str());
                s.append("\n");
            },
            None => {},
        }
        s.append("Stars: ");
        let stars = decimal_string(self.stars as u64);
        s.append(stars.as_str());
        s.append("\n");
        s.append("Owner: ");
        s.append(self.owner.login.as_str());
        proof {
            assert(s@ =~= self.spec_prepared_text());
        }
        s
    }

    /// The record after a completed embedding write at `now_ms`: the vector
    /// is stored and the generation time set to the write time.
    pub open spec fn spec_after_embedding_write(pre: Self, embedding: Vec<u32>, now_ms: u64) -> Self {
        Repo {
            embedding: Some(embedding),
            embedding_generated_at_ms: Some(now_ms),
            ..pre
        }
    }

    /// Applies a completed embedding write to the record.
    pub fn apply_embedding_write(&mut self, embedding: Vec<u32>, now_ms: u64)
        ensures
            *final(self) == Self::spec_after_embedding_write(*old(self), embedding, now_ms),
    {
        self.embedding = Some(embedding);
        self.embedding_generated_at_ms = Some(now_ms);
    }

    /// A completed write is sound and final: written with a non-empty
    /// vector at a time no earlier than the record's last modification, it
    /// leaves the record with a non-empty embedding whose generation time
    /// is at or after `updated_at`, and the record no longer needs an
    /// embedding — so a re-run issues no new write for it.
    pub proof fn lemma_completed_write_is_final(pre: Self, embedding: Vec<u32>, now_ms: u64)
        requires
            embedding@.len() > 0,
            now_ms >= pre.updated_at_ms,
        ensures
            ({
                let post = Self::spec_after_embedding_write(pre, embedding, now_ms);
                &&& post.embedding matches Some(e) && e@.len() > 0
                &&& post.embedding_generated_at_ms matches Some(t) && t >= post.updated_at_ms
                &&& !post.spec_needs_embedding()
            }),
    {
    }
}

/// A change notification about a record, as the discovery sources see it.
#[derive(Debug, Clone)]
pub struct LiveQueryNotification {
    pub action: LiveAction,
    pub result: Repo,
}

/// The kind of change a notification reports.
#[derive(Debug, Clone, Copy, PartialEq, Eq, Structural)]
pub enum LiveAction {
    Create,
    Update,
    Delete,
}

} // verus!
