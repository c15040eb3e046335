//! Library and operating-system metadata, and the enricher that merges it into
//! an event.

use crate::events::{Event, EventView};
use crate::json::{json_number, json_string, Json};
use vstd::prelude::*;

verus! {

/// `semver::Error`, what a failed version parse reports.
#[verifier::external_type_specification]
#[verifier::external_body]
pub struct ExSemverError(semver::Error);

/// The major, minor and patch numbers that `semver::Version::parse` reads from a
/// text, or `None` where it rejects the text.
pub uninterp spec fn semver_numbers(text: Seq<char>) -> Option<(u64, u64, u64)>;

/// Calls `semver::Version::parse` and picks the three numbers of the version:
/// the outcome is the one that [`semver_numbers`] names for the text.
#[verifier::external_body]
fn parse_semver(text: &str) -> (parsed: Result<(u64, u64, u64), semver::Error>)
    ensures
        match parsed {
            Ok(numbers) => semver_numbers(text@) == Some(numbers),
            Err(_) => semver_numbers(text@) is None,
        },
{
    match semver::Version::parse(text) {
        Ok(version) => Ok((version.major, version.minor, version.patch)),
        Err(error) => Err(error),
    }
}

/// The name under which this library reports itself.
pub const LIB_NAME: &'static str = "better-posthog";

/// The version under which this library reports itself.
pub const LIB_VERSION: &'static str = "0.1.0";

/// Why no context could be made.
#[derive(Debug, Clone, Copy, PartialEq, Eq)]
pub enum ContextError {
    /// The library version is not a semantic version.
    InvalidVersion,
}

/// The metadata merged into every event. It is made once and never changes.
#[derive(Debug)]
pub struct Context {
    pub lib_name: String,
    pub lib_version: String,
    pub lib_version_major: u64,
    pub lib_version_minor: u64,
    pub lib_version_patch: u64,
    pub os_name: String,
    pub os_version: String,
    pub os_arch: String,
}

impl Clone for Context {
    fn clone(&self) -> (copy: Context)
        ensures
            copy == *self,
    {
        Context {
            lib_name: self.lib_name.clone(),
            lib_version: self.lib_version.clone(),
            lib_version_major: self.lib_version_major,
            lib_version_minor: self.lib_version_minor,
            lib_version_patch: self.lib_version_patch,
            os_name: self.os_name.clone(),
            os_version: self.os_version.clone(),
            os_arch: self.os_arch.clone(),
        }
    }
}

/// The eight property names under which the metadata is stored.
pub open spec fn metadata_keys() -> Set<Seq<char>> {
    set![
        "$lib"@,
        "$lib_version"@,
        "$lib_version_major"@,
        "$lib_version_minor"@,
        "$lib_version_patch"@,
        "$os"@,
        "$os_version"@,
        "$os_arch"@,
    ]
}

/// The eight property names are pairwise different, so the metadata holds eight
/// properties.
pub proof fn lemma_metadata_keys_differ()
    ensures
        "$lib"@ != "$lib_version"@,
        "$lib"@ != "$lib_version_major"@,
        "$lib"@ != "$lib_version_minor"@,
        "$lib"@ != "$lib_version_patch"@,
        "$lib"@ != "$os"@,
        "$lib"@ != "$os_version"@,
        "$lib"@ != "$os_arch"@,
        "$lib_version"@ != "$lib_version_major"@,
        "$lib_version"@ != "$lib_version_minor"@,
        "$lib_version"@ != "$lib_version_patch"@,
        "$lib_version"@ != "$os"@,
        "$lib_version"@ != "$os_version"@,
        "$lib_version"@ != "$os_arch"@,
        "$lib_version_major"@ != "$lib_version_minor"@,
        "$lib_version_major"@ != "$lib_version_patch"@,
        "$lib_version_major"@ != "$os"@,
        "$lib_version_major"@ != "$os_version"@,
        "$lib_version_major"@ != "$os_arch"@,
        "$lib_version_minor"@ != "$lib_version_patch"@,
        "$lib_version_minor"@ != "$os"@,
        "$lib_version_minor"@ != "$os_version"@,
        "$lib_version_minor"@ != "$os_arch"@,
        "$lib_version_patch"@ != "$os"@,
        "$lib_version_patch"@ != "$os_version"@,
        "$lib_version_patch"@ != "$os_arch"@,
        "$os"@ != "$os_version"@,
        "$os"@ != "$os_arch"@,
        "$os_version"@ != "$os_arch"@,
        metadata_keys().finite(),
        metadata_keys().len() == 8,
{
    reveal_strlit("$lib");
    reveal_strlit("$lib_version");
    reveal_strlit("$lib_version_major");
    reveal_strlit("$lib_version_minor");
    reveal_strlit("$lib_version_patch");
    reveal_strlit("$os");
    reveal_strlit("$os_version");
    reveal_strlit("$os_arch");
    assert("$lib"@.len() == 4);
    assert("$lib_version"@.len() == 12);
    assert("$lib_version_major"@.len() == 18);
    assert("$lib_version_minor"@.len() == 18);
    assert("$lib_version_patch"@.len() == 18);
    assert("$os"@.len() == 3);
    assert("$os_version"@.len() == 11);
    assert("$os_arch"@.len() == 8);
    assert("$lib_version_major"@[15] == 'j');
    assert("$lib_version_minor"@[15] == 'n');
    assert("$lib_version_patch"@[15] == 't');
    let s0 = Set::<Seq<char>>::empty();
    let s1 = s0.insert("$lib"@);
    let s2 = s1.insert("$lib_version"@);
    let s3 = s2.insert("$lib_version_major"@);
    let s4 = s3.insert("$lib_version_minor"@);
    let s5 = s4.insert("$lib_version_patch"@);
    let s6 = s5.insert("$os"@);
    let s7 = s6.insert("$os_version"@);
    let s8 = s7.insert("$os_arch"@);
    assert(s8 =~= metadata_keys());
}

impl Context {
    /// The metadata as properties: the map from the eight names to their values.
    pub open spec fn metadata(self) -> Map<Seq<char>, Json> {
        Map::<Seq<char>, Json>::empty().insert("$lib"@, Json::Text(self.lib_name@)).insert(
            "$lib_version"@,
            Json::Text(self.lib_version@),
        ).insert("$lib_version_major"@, Json::Integer(self.lib_version_major as int)).insert(
            "$lib_version_minor"@,
            Json::Integer(self.lib_version_minor as int),
        ).insert("$lib_version_patch"@, Json::Integer(self.lib_version_patch as int)).insert(
            "$os"@,
            Json::Text(self.os_name@),
        ).insert("$os_version"@, Json::Text(self.os_version@)).insert(
            "$os_arch"@,
            Json::Text(self.os_arch@),
        )
    }

    /// The context of a library with the given name and version numbers on the
    /// given system.
    pub fn from_parts(
        lib_name: &str,
        lib_version: &str,
        numbers: (u64, u64, u64),
        os_name: &str,
        os_version: &str,
        os_arch: &str,
    ) -> (context: Context)
        ensures
            context.lib_name@ == lib_name@,
            context.lib_version@ == lib_version@,
            context.lib_version_major == numbers.0,
            context.lib_version_minor == numbers.1,
            context.lib_version_patch == numbers.2,
            context.os_name@ == os_name@,
            context.os_version@ == os_version@,
            context.os_arch@ == os_arch@,
    {
        Context {
            lib_name: lib_name.to_owned(),
            lib_version: lib_version.to_owned(),
            lib_version_major: numbers.0,
            lib_version_minor: numbers.1,
            lib_version_patch: numbers.2,
            os_name: os_name.to_owned(),
            os_version: os_version.to_owned(),
            os_arch: os_arch.to_owned(),
        }
    }

    /// The context of the library `lib_name` in version `lib_version` on the given
    /// system. The version must be a semantic version; its three numbers are
    /// stored beside the full text.
    pub fn new(
        lib_name: &str,
        lib_version: &str,
        os_name: &str,
        os_version: &str,
        os_arch: &str,
    ) -> (made: Result<Context, ContextError>)
        ensures
            match made {
                Ok(context) => {
                    &&& semver_numbers(lib_version@) == Some(
                        (
                            context.lib_version_major,
                            context.lib_version_minor,
                            context.lib_version_patch,
                        ),
                    )
                    &&& context.lib_name@ == lib_name@
                    &&& context.lib_version@ == lib_version@
                    &&& context.os_name@ == os_name@
                    &&& context.os_version@ == os_version@
                    &&& context.os_arch@ == os_arch@
                },
                Err(error) => error == ContextError::InvalidVersion && semver_numbers(
                    lib_version@,
                ) is None,
            },
    {
        match parse_semver(lib_version) {
            Ok(numbers) => Ok(
                Context::from_parts(lib_name, lib_version, numbers, os_name, os_version, os_arch),
            ),
            Err(_) => Err(ContextError::InvalidVersion),
        }
    }

    /// The context of this library on the given system.
    pub fn for_library(os_name: &str, os_version: &str, os_arch: &str) -> (made: Result<
        Context,
        ContextError,
    >)
        ensures
            match made {
                Ok(context) => {
                    &&& semver_numbers(LIB_VERSION@) == Some(
                        (
                            context.lib_version_major,
                            context.lib_version_minor,
                            context.lib_version_patch,
                        ),
                    )
                    &&& context.lib_name@ == LIB_NAME@
                    &&& context.lib_version@ == LIB_VERSION@
                    &&& context.os_name@ == os_name@
                    &&& context.os_version@ == os_version@
                    &&& context.os_arch@ == os_arch@
                },
                Err(error) => error == ContextError::InvalidVersion && semver_numbers(
                    LIB_VERSION@,
                ) is None,
            },
    {
        Context::new(LIB_NAME, LIB_VERSION, os_name, os_version, os_arch)
    }
}

/// The properties of an event after enrichment: the metadata, with every
/// property that the event already had in place of the metadata of the same name.
pub open spec fn enriched_properties(before: Map<Seq<char>, Json>, context: Context) -> Map<
    Seq<char>,
    Json,
> {
    context.metadata().union_prefer_right(before)
}

/// An event after enrichment.
pub open spec fn enriched(before: EventView, context: Context) -> EventView {
    EventView { properties: enriched_properties(before.properties, context), ..before }
}

/// Saturates the event with library and OS context metadata.
///
/// Each of the eight metadata properties is added unless the event already has
/// a property of that name; nothing else changes.
pub fn saturate_event(event: &mut Event, context: &Context)
    ensures
        final(event)@ == enriched(old(event)@, *context),
        forall|name: Seq<char>|
            old(event)@.properties.contains_key(name) ==> final(event)@.properties.contains_key(
                name,
            ) && final(event)@.properties[name] == old(event)@.properties[name],
        forall|name: Seq<char>|
            metadata_keys().contains(name) ==> final(event)@.properties.contains_key(name),
        forall|name: Seq<char>|
            final(event)@.properties.contains_key(name) ==> old(event)@.properties.contains_key(
                name,
            ) || metadata_keys().contains(name),
{
    let ghost before = event@.properties;
    event.properties.insert_if_absent("$lib".to_owned(), json_string(context.lib_name.clone()));
    event.properties.insert_if_absent(
        "$lib_version".to_owned(),
        json_string(context.lib_version.clone()),
    );
    event.properties.insert_if_absent(
        "$lib_version_major".to_owned(),
        json_number(context.lib_version_major),
    );
    event.properties.insert_if_absent(
        "$lib_version_minor".to_owned(),
        json_number(context.lib_version_minor),
    );
    event.properties.insert_if_absent(
        "$lib_version_patch".to_owned(),
        json_number(context.lib_version_patch),
    );
    event.properties.insert_if_absent("$os".to_owned(), json_string(context.os_name.clone()));
    event.properties.insert_if_absent(
        "$os_version".to_owned(),
        json_string(context.os_version.clone()),
    );
    event.properties.insert_if_absent("$os_arch".to_owned(), json_string(context.os_arch.clone()));
    proof {
        lemma_metadata_keys_differ();
        assert(event@.properties =~= enriched_properties(before, *context));
    }
}

} // verus!
