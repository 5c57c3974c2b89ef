use vstd::prelude::*;
use crate::json::{content_json, encode_request, joined, json_string, part_json};
use crate::text::{dec_rep, trim_spec, trim_str, u16_to_string};
use crate::types::{GeminiContent, GeminiPart, GeminiPartResponse, GeminiRequest, GeminiResponse};

verus! {

/// The fixed instruction text that precedes the diff in the prompt.
pub open spec fn prompt_prefix() -> Seq<char> {
    "You are an expert developer tasked with creating meaningful Git commit messages based on code diffs.\n\nGiven the following Git diff, generate a single commit message that follows these guidelines:\n\n1. Use conventional commit format: <type>: <emoji><message>\n2. Include appropriate emoji based on the change type\n3. Keep the summary line under 50 characters when possible\n4. Be specific and descriptive about what changed\n5. If there are multiple changes, focus on the most significant one\n\nCommit Types and Emojis:\n- feat: \u{2728} (new feature)\n- fix: \u{1f41b} (bug fix)\n- docs: \u{1f4da} (documentation)\n- style: \u{1f484} (formatting, styling)\n- refactor: \u{1f528} (code refactoring)\n- test: \u{2705} (adding tests)\n- chore: \u{1f527} (maintenance tasks)\n- perf: \u{1f40e} (performance improvement)\n- ci: \u{1f49a} (continuous integration)\n- build: \u{1f4e6} (build system)\n- revert: \u{23ea} (reverting changes)\n- security: \u{1f512} (security improvements)\n- deps: \u{2b06}\u{fe0f} (dependency updates)\n- remove: \u{1f525} (removing code/files)\n- wip: \u{1f6a7} (work in progress)\n\nExamples:\n- \"feat: \u{2728}Add user authentication system\"\n- \"fix: \u{1f41b}Resolve memory leak in data processing\"\n- \"docs: \u{1f4da}Update API documentation\"\n- \"refactor: \u{1f528}Simplify user service logic\"\n\nGit diff:\n```\n"@
}

/// The fixed instruction text that follows the diff in the prompt.
pub open spec fn prompt_suffix() -> Seq<char> {
    "\n```\n\nGenerate only the commit message, nothing else:"@
}

/// The whole prompt for a diff: instructions, the diff verbatim inside a
/// delimited code block, and the closing instruction.
pub open spec fn spec_prompt(diff: Seq<char>) -> Seq<char> {
    prompt_prefix() + diff + prompt_suffix()
}

/// Prompt determinism: the rendered prompt depends on the diff text alone,
/// so equal diffs always yield byte-identical prompts.
pub proof fn lemma_prompt_deterministic(d1: Seq<char>, d2: Seq<char>)
    requires
        d1 == d2,
    ensures
        spec_prompt(d1) == spec_prompt(d2),
{
}

/// The provider endpoint, up to the query parameter that carries the key.
pub open spec fn url_prefix() -> Seq<char> {
    "https://generativelanguage.googleapis.com/v1beta/models/gemini-2.0-flash:generateContent?key="@
}

/// The full request URL for a credential.
pub open spec fn spec_url(key: Seq<char>) -> Seq<char> {
    url_prefix() + key
}

/// The JSON body sent upstream for a diff: one content turn holding one part
/// with the rendered prompt.
pub open spec fn request_body_json(diff: Seq<char>) -> Seq<char> {
    "{\"contents\":["@ + ("{\"parts\":["@ + ("{\"text\":"@ + json_string(spec_prompt(diff)) + "}"@)
        + "]}"@) + "]}"@
}

/// An upstream status counts as success exactly when it is in the 2xx range.
pub open spec fn status_is_success(status: u16) -> bool {
    200 <= status < 300
}

/// The failure text for a non-2xx upstream reply.
pub open spec fn upstream_error_msg(status: u16, body: Seq<char>) -> Seq<char> {
    "API request failed with status "@ + dec_rep(status as nat) + ": "@ + body
}

/// The text of all parts, concatenated in order with no separator.
pub open spec fn parts_text(parts: Seq<GeminiPartResponse>) -> Seq<char>
    decreases parts.len(),
{
    if parts.len() == 0 {
        Seq::empty()
    } else {
        parts_text(parts.drop_last()) + parts.last().text@
    }
}

/// A response carries a usable message when it has at least one candidate
/// whose content has at least one part.
pub open spec fn has_message(r: GeminiResponse) -> bool {
    r.candidates@.len() > 0 && r.candidates@[0].content.parts@.len() > 0
}

/// The message a usable response yields: the parts of the first candidate,
/// concatenated in order, then trimmed.
pub open spec fn extracted_message(r: GeminiResponse) -> Seq<char> {
    trim_spec(parts_text(r.candidates@[0].content.parts@))
}

/// The client for the generative-AI provider: renders prompts, frames the
/// outbound request, and reads messages out of responses. The network call
/// itself happens outside the library, between `request_body` and
/// `extract_commit_message`.
pub struct GeminiService;

impl GeminiService {
    /// Renders the instruction template with the diff embedded verbatim.
    pub fn create_commit_prompt(diff: &str) -> (r: String)
        ensures
            r@ == spec_prompt(diff@),
    {
        let mut out = String::from_str(
            "You are an expert developer tasked with creating meaningful Git commit messages based on code diffs.\n\nGiven the following Git diff, generate a single commit message that follows these guidelines:\n\n1. Use conventional commit format: <type>: <emoji><message>\n2. Include appropriate emoji based on the change type\n3. Keep the summary line under 50 characters when possible\n4. Be specific and descriptive about what changed\n5. If there are multiple changes, focus on the most significant one\n\nCommit Types and Emojis:\n- feat: \u{2728} (new feature)\n- fix: \u{1f41b} (bug fix)\n- docs: \u{1f4da} (documentation)\n- style: \u{1f484} (formatting, styling)\n- refactor: \u{1f528} (code refactoring)\n- test: \u{2705} (adding tests)\n- chore: \u{1f527} (maintenance tasks)\n- perf: \u{1f40e} (performance improvement)\n- ci: \u{1f49a} (continuous integration)\n- build: \u{1f4e6} (build system)\n- revert: \u{23ea} (reverting changes)\n- security: \u{1f512} (security improvements)\n- deps: \u{2b06}\u{fe0f} (dependency updates)\n- remove: \u{1f525} (removing code/files)\n- wip: \u{1f6a7} (work in progress)\n\nExamples:\n- \"feat: \u{2728}Add user authentication system\"\n- \"fix: \u{1f41b}Resolve memory leak in data processing\"\n- \"docs: \u{1f4da}Update API documentation\"\n- \"refactor: \u{1f528}Simplify user service logic\"\n\nGit diff:\n```\n",
        );
        out.append(diff);
        out.append("\n```\n\nGenerate only the commit message, nothing else:");
        out
    }

    /// The full provider URL, with the credential as its query parameter.
    pub fn request_url(api_key: &str) -> (r: String)
        ensures
            r@ == spec_url(api_key@),
    {
        let mut out = String::from_str(
            "https://generativelanguage.googleapis.com/v1beta/models/gemini-2.0-flash:generateContent?key=",
        );
        out.append(api_key);
        out
    }

    /// Builds the upstream request value: one content turn with one part.
    pub fn build_request(diff: &str) -> (r: GeminiRequest)
        ensures
            r.contents@.len() == 1,
            r.contents@[0].parts@.len() == 1,
            r.contents@[0].parts@[0].text@ == spec_prompt(diff@),
    {
        let prompt = Self::create_commit_prompt(diff);
        let mut parts: Vec<GeminiPart> = Vec::new();
        parts.push(GeminiPart { text: prompt });
        let mut contents: Vec<GeminiContent> = Vec::new();
        contents.push(GeminiContent { parts });
        GeminiRequest { contents }
    }

    /// The exact JSON body sent upstream for a diff.
    pub fn request_body(diff: &str) -> (r: String)
        ensures
            r@ == request_body_json(diff@),
    {
        let req = Self::build_request(diff);
        let out = encode_request(&req);
        proof {
            let c0 = req.contents@[0];
            let p0 = c0.parts@[0];
            let pmap = c0.parts@.map_values(|p: GeminiPart| part_json(p));
            assert(pmap.len() == 1);
            assert(pmap[0] == part_json(p0));
            assert(joined(pmap) == pmap[0]);
            let cmap = req.contents@.map_values(|c: GeminiContent| content_json(c));
            assert(cmap.len() == 1);
            assert(cmap[0] == content_json(c0));
            assert(joined(cmap) == cmap[0]);
            assert(out@ == request_body_json(diff@));
        }
        out
    }

    /// Accepts a 2xx upstream status; turns any other into the failure text
    /// that names the status and carries the raw body.
    pub fn check_upstream_status(status: u16, body: &str) -> (r: Result<(), String>)
        ensures
            match r {
                Ok(_) => status_is_success(status),
                Err(e) => !status_is_success(status) && e@ == upstream_error_msg(status, body@),
            },
    {
        if 200 <= status && status < 300 {
            Ok(())
        } else {
            let mut msg = String::from_str("API request failed with status ");
            let num = u16_to_string(status);
            msg.append(num.as_str());
            msg.append(": ");
            msg.append(body);
            proof {
                assert(msg@ =~= upstream_error_msg(status, body@));
            }
            Err(msg)
        }
    }

    /// Reads the message out of an upstream response: the first candidate's
    /// parts concatenated in order and trimmed. Fails exactly when there is
    /// no candidate or the first candidate has no parts.
    pub fn extract_commit_message(resp: &GeminiResponse) -> (r: Result<String, String>)
        ensures
            match r {
                Ok(m) => has_message(*resp) && m@ == extracted_message(*resp),
                Err(e) => !has_message(*resp) && e@ == "No commit message generated"@,
            },
    {
        if resp.candidates.len() == 0 {
            return Err(String::from_str("No commit message generated"));
        }
        let parts = &resp.candidates[0].content.parts;
        let n = parts.len();
        if n == 0 {
            return Err(String::from_str("No commit message generated"));
        }
        let mut joined_text = String::new();
        let mut i: usize = 0;
        while i < n
            invariant
                i <= n,
                n == parts@.len(),
                joined_text@ == parts_text(parts@.subrange(0, i as int)),
            decreases n - i,
        {
            proof {
                let pre = parts@.subrange(0, i as int);
                let post = parts@.subrange(0, i as int + 1);
                assert(post.drop_last() =~= pre);
                assert(post.last() == parts@[i as int]);
            }
            joined_text.append(parts[i].text.as_str());
            i += 1;
        }
        proof {
            assert(parts@.subrange(0, n as int) =~= parts@);
        }
        Ok(trim_str(joined_text.as_str()))
    }
}

} // verus!
