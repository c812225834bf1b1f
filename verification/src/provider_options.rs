//! The options of the storage providers, as the object store takes them.

use vstd::prelude::*;
use vstd::string::*;

use crate::config::{ProviderOptions, Settings};
use crate::text::{lowercase, to_lowercase};

verus! {

/// Names and values as sequences of characters.
pub open spec fn option_views(options: Seq<(String, String)>) -> Seq<(Seq<char>, Seq<char>)> {
    options.map_values(|option: (String, String)| (option.0@, option.1@))
}

/// The options of a provider: each name in lower case behind the provider's
/// prefix, each value as it is.
pub open spec fn prefixed_options(prefix: Seq<char>, options: Option<ProviderOptions>) -> Seq<
    (Seq<char>, Seq<char>),
> {
    match options {
        Some(list) => list@.map_values(
            |option: (String, String)| (prefix + lowercase(option.0@), option.1@),
        ),
        None => Seq::empty(),
    }
}

/// All options of the object store: those of AWS, then Azure, then Google Cloud.
pub open spec fn store_options(settings: Settings) -> Seq<(Seq<char>, Seq<char>)> {
    prefixed_options("aws_"@, settings.aws) + prefixed_options("azure_"@, settings.azure)
        + prefixed_options("google_"@, settings.gcp)
}

/// The name of an option: the prefix of its provider, then its own name in lower
/// case.
pub fn option_name(prefix: &str, name_in_lowercase: &str) -> (name: String)
    ensures
        name@ == prefix@ + name_in_lowercase@,
{
    let mut name = String::from_str(prefix);
    name.append(name_in_lowercase);
    name
}

fn push_prefixed(
    collected: &mut Vec<(String, String)>,
    prefix: &str,
    options: &Option<ProviderOptions>,
)
    ensures
        option_views(final(collected)@) == option_views(old(collected)@) + prefixed_options(
            prefix@,
            *options,
        ),
{
    let ghost before = option_views(collected@);
    if let Some(list) = options {
        for i in 0..list.len()
            invariant
                collected@.len() == before.len() + i,
                option_views(collected@).take(before.len() as int) =~= before,
                forall|k: int|
                    0 <= k < i ==> option_views(collected@)[before.len() + k] == (
                        prefix@ + lowercase((#[trigger] list@[k]).0@),
                        list@[k].1@,
                    ),
        {
            let ghost so_far = collected@;
            let name = option_name(prefix, to_lowercase(list[i].0.as_str()).as_str());
            collected.push((name, list[i].1.clone()));
            proof {
                assert(option_views(collected@) =~= option_views(so_far).push(
                    (prefix@ + lowercase(list@[i as int].0@), list@[i as int].1@),
                ));
                assert(option_views(collected@).take(before.len() as int) =~= option_views(
                    so_far,
                ).take(before.len() as int));
            }
        }
    }
    let ghost added = prefixed_options(prefix@, *options);
    proof {
        assert forall|k: int| 0 <= k < collected@.len() implies option_views(collected@)[k] == (
        before + added)[k] by {
            if k < before.len() {
                assert(option_views(collected@).take(before.len() as int)[k] == before[k]);
            } else {
                let j = k - before.len();
                assert(options matches Some(list) && added[j] == (
                    prefix@ + lowercase(list@[j].0@),
                    list@[j].1@,
                ));
            }
        }
        assert(option_views(collected@) =~= before + added);
    }
}

/// All options that the settings hand to the object store.
pub fn object_store_options(settings: &Settings) -> (options: Vec<(String, String)>)
    ensures
        option_views(options@) == store_options(*settings),
        ({
            let aws = option_count(settings.aws) as int;
            let azure = option_count(settings.azure) as int;
            let gcp = option_count(settings.gcp) as int;
            &&& options@.len() == aws + azure + gcp
            &&& settings.aws matches Some(list) ==> forall|i: int|
                0 <= i < list@.len() ==> {
                    &&& options@[i].0@ == "aws_"@ + lowercase((#[trigger] list@[i]).0@)
                    &&& options@[i].1@ == list@[i].1@
                }
            &&& settings.azure matches Some(list) ==> forall|i: int|
                0 <= i < list@.len() ==> {
                    &&& options@[aws + i].0@ == "azure_"@ + lowercase((#[trigger] list@[i]).0@)
                    &&& options@[aws + i].1@ == list@[i].1@
                }
            &&& settings.gcp matches Some(list) ==> forall|i: int|
                0 <= i < list@.len() ==> {
                    &&& options@[aws + azure + i].0@ == "google_"@ + lowercase(
                        (#[trigger] list@[i]).0@,
                    )
                    &&& options@[aws + azure + i].1@ == list@[i].1@
                }
        }),
{
    let mut options: Vec<(String, String)> = Vec::new();
    assert(option_views(options@) =~= Seq::empty());
    push_prefixed(&mut options, "aws_", &settings.aws);
    push_prefixed(&mut options, "azure_", &settings.azure);
    push_prefixed(&mut options, "google_", &settings.gcp);
    assert(option_views(options@) =~= store_options(*settings));
    proof {
        options_are_handed_on_by_place(*settings);
        assert(forall|i: int|
            0 <= i < options@.len() ==> option_views(options@)[i] == (
                (#[trigger] options@[i]).0@,
                options@[i].1@,
            ));
    }
    options
}

/// Options of different providers never have the same name.
pub proof fn providers_do_not_share_names(settings: Settings)
    ensures
        ({
            let aws = prefixed_options("aws_"@, settings.aws);
            let azure = prefixed_options("azure_"@, settings.azure);
            let google = prefixed_options("google_"@, settings.gcp);
            &&& forall|i: int, j: int|
                0 <= i < aws.len() && 0 <= j < azure.len() ==> (#[trigger] aws[i]).0 != (
                #[trigger] azure[j]).0
            &&& forall|i: int, j: int|
                0 <= i < azure.len() && 0 <= j < google.len() ==> (#[trigger] azure[i]).0 != (
                #[trigger] google[j]).0
            &&& forall|i: int, j: int|
                0 <= i < google.len() && 0 <= j < aws.len() ==> (#[trigger] google[i]).0 != (
                #[trigger] aws[j]).0
        }),
{
    reveal_strlit("aws_");
    reveal_strlit("azure_");
    reveal_strlit("google_");
    let aws = prefixed_options("aws_"@, settings.aws);
    let azure = prefixed_options("azure_"@, settings.azure);
    let google = prefixed_options("google_"@, settings.gcp);
    assert(forall|i: int| 0 <= i < aws.len() ==> (#[trigger] aws[i]).0[1] == 'w');
    assert(forall|i: int| 0 <= i < azure.len() ==> (#[trigger] azure[i]).0[1] == 'z');
    assert(forall|i: int| 0 <= i < google.len() ==> (#[trigger] google[i]).0[1] == 'o');
}

/// As many options are handed on as are configured.
pub proof fn as_many_options_as_configured(settings: Settings)
    ensures
        store_options(settings).len() == option_count(settings.aws) + option_count(settings.azure)
            + option_count(settings.gcp),
{
}

/// How many options are configured for a provider.
pub open spec fn option_count(options: Option<ProviderOptions>) -> nat {
    match options {
        Some(list) => list@.len(),
        None => 0,
    }
}

/// What is seen of options is their names and values, each at its place.
pub proof fn options_show_names_and_values(options: Seq<(String, String)>)
    ensures
        option_views(options).len() == options.len(),
        forall|i: int|
            0 <= i < options.len() ==> (#[trigger] option_views(options)[i]).0 == options[i].0@
                && option_views(options)[i].1 == options[i].1@,
{
}

/// Every configured option is handed on at its place, with its own value, under its
/// own name in lower case behind the prefix of its provider: first all of AWS, then
/// all of Azure, then all of Google Cloud, and nothing else.
pub proof fn options_are_handed_on_by_place(settings: Settings)
    ensures
        ({
            let options = store_options(settings);
            let aws = match settings.aws {
                Some(list) => list@.len() as int,
                None => 0,
            };
            let azure = match settings.azure {
                Some(list) => list@.len() as int,
                None => 0,
            };
            let gcp = match settings.gcp {
                Some(list) => list@.len() as int,
                None => 0,
            };
            &&& options.len() == aws + azure + gcp
            &&& aws == option_count(settings.aws)
            &&& azure == option_count(settings.azure)
            &&& gcp == option_count(settings.gcp)
            &&& settings.aws matches Some(list) ==> forall|i: int|
                0 <= i < list@.len() ==> {
                    &&& options[i].0 == "aws_"@ + lowercase((#[trigger] list@[i]).0@)
                    &&& options[i].1 == list@[i].1@
                }
            &&& settings.azure matches Some(list) ==> forall|i: int|
                0 <= i < list@.len() ==> {
                    &&& options[aws + i].0 == "azure_"@ + lowercase((#[trigger] list@[i]).0@)
                    &&& options[aws + i].1 == list@[i].1@
                }
            &&& settings.gcp matches Some(list) ==> forall|i: int|
                0 <= i < list@.len() ==> {
                    &&& options[aws + azure + i].0 == "google_"@ + lowercase(
                        (#[trigger] list@[i]).0@,
                    )
                    &&& options[aws + azure + i].1 == list@[i].1@
                }
        }),
{
}

} // verus!
