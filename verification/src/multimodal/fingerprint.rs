use vstd::prelude::*;

use crate::config::AppConfig;

verus! {

pub open spec fn text_or_empty(o: Option<String>) -> Seq<char> {
    match o {
        Some(s) => s@,
        None => Seq::empty(),
    }
}

/// `edge:<url>|ek:<key>|cloud:<url>|ck:<key>`, with absent values empty.
pub open spec fn fingerprint_of(config: AppConfig) -> Seq<char> {
    "edge:"@ + text_or_empty(config.edge_base_url) + "|ek:"@ + text_or_empty(config.edge_api_key)
        + "|cloud:"@ + text_or_empty(config.cloud_base_url) + "|ck:"@ + text_or_empty(
        config.cloud_api_key,
    )
}

fn append_opt(out: &mut String, o: &Option<String>)
    ensures
        final(out)@ == old(out)@ + text_or_empty(*o),
{
    match o {
        Some(s) => out.append(s.as_str()),
        None => {
            assert(out@ =~= out@ + Seq::<char>::empty());
        },
    }
}

/// Fingerprint of upstream endpoints; when this changes, multimodal probes reset.
pub fn upstream_fingerprint(config: &AppConfig) -> (r: String)
    ensures
        r@ == fingerprint_of(*config),
{
    let mut out = "edge:".to_owned();
    append_opt(&mut out, &config.edge_base_url);
    out.append("|ek:");
    append_opt(&mut out, &config.edge_api_key);
    out.append("|cloud:");
    append_opt(&mut out, &config.cloud_base_url);
    out.append("|ck:");
    append_opt(&mut out, &config.cloud_api_key);
    out
}

} // verus!
