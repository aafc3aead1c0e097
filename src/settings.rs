use vstd::prelude::*;

use crate::wire::{
    entries_view, keys_of, fields_view, push_entry, push_field, Entry, Scalar, ScalarView, ValueView,
    WireField, WireObject, WireValue,
};

verus! {

/// How a sign-in link opens the Android app.
#[derive(Clone, Debug, PartialEq, Eq)]
pub struct AndroidActionCodeSettings {
    pub install_app: Option<bool>,
    pub minimum_version: Option<String>,
    pub package_name: String,
}

/// How a sign-in link opens the iOS app.
#[derive(Clone, Debug, PartialEq, Eq)]
pub struct IOSActionCodeSettings {
    pub bundle_id: String,
}

/// How a sign-in link sent by email routes back into the application. The
/// continuation `url` is required; every other option may be left unset, and
/// an unset option is left out of the object sent to the platform.
#[derive(Clone, Debug, PartialEq, Eq)]
pub struct ActionCodeSettings {
    pub android: Option<AndroidActionCodeSettings>,
    pub handle_code_in_app: Option<bool>,
    pub ios: Option<IOSActionCodeSettings>,
    pub url: String,
    pub dynamic_link_domain: Option<String>,
}

/// A one-entry sequence for a set option, an empty one for an unset option.
pub open spec fn optional<T>(o: Option<T>, f: spec_fn(T) -> (Seq<char>, ScalarView)) -> Seq<
    (Seq<char>, ScalarView),
> {
    match o {
        Some(x) => seq![f(x)],
        None => seq![],
    }
}

/// The nested object for the Android options.
pub open spec fn android_wire(a: AndroidActionCodeSettings) -> Seq<(Seq<char>, ScalarView)> {
    optional(a.install_app, |b: bool| ("installApp"@, ScalarView::Flag(b)))
        + optional(a.minimum_version, |s: String| ("minimumVersion"@, ScalarView::Text(s@)))
        + seq![("packageName"@, ScalarView::Text(a.package_name@))]
}

/// The nested object for the iOS options.
pub open spec fn ios_wire(i: IOSActionCodeSettings) -> Seq<(Seq<char>, ScalarView)> {
    seq![("bundleId"@, ScalarView::Text(i.bundle_id@))]
}

pub open spec fn android_part(s: ActionCodeSettings) -> Seq<(Seq<char>, ValueView)> {
    match s.android {
        Some(a) => seq![("android"@, ValueView::Object(android_wire(a)))],
        None => seq![],
    }
}

pub open spec fn handle_part(s: ActionCodeSettings) -> Seq<(Seq<char>, ValueView)> {
    match s.handle_code_in_app {
        Some(b) => seq![("handleCodeInApp"@, ValueView::Scalar(ScalarView::Flag(b)))],
        None => seq![],
    }
}

pub open spec fn ios_part(s: ActionCodeSettings) -> Seq<(Seq<char>, ValueView)> {
    match s.ios {
        Some(i) => seq![("ios"@, ValueView::Object(ios_wire(i)))],
        None => seq![],
    }
}

pub open spec fn url_part(s: ActionCodeSettings) -> Seq<(Seq<char>, ValueView)> {
    seq![("url"@, ValueView::Scalar(ScalarView::Text(s.url@)))]
}

pub open spec fn domain_part(s: ActionCodeSettings) -> Seq<(Seq<char>, ValueView)> {
    match s.dynamic_link_domain {
        Some(d) => seq![("dynamicLinkDomain"@, ValueView::Scalar(ScalarView::Text(d@)))],
        None => seq![],
    }
}

/// The object that the settings serialize to: camelCase keys, in declaration
/// order, each unset option left out.
pub open spec fn settings_wire(s: ActionCodeSettings) -> Seq<(Seq<char>, ValueView)> {
    android_part(s) + handle_part(s) + ios_part(s) + url_part(s) + domain_part(s)
}

impl AndroidActionCodeSettings {
    pub fn new(package_name: String) -> (r: Self)
        ensures
            r.package_name == package_name,
            r.install_app is None,
            r.minimum_version is None,
    {
        AndroidActionCodeSettings { install_app: None, minimum_version: None, package_name }
    }

    pub fn with_install_app(self, install_app: bool) -> (r: Self)
        ensures
            r == (Self { install_app: Some(install_app), ..self }),
    {
        AndroidActionCodeSettings { install_app: Some(install_app), ..self }
    }

    pub fn with_minimum_version(self, minimum_version: String) -> (r: Self)
        ensures
            r == (Self { minimum_version: Some(minimum_version), ..self }),
    {
        AndroidActionCodeSettings { minimum_version: Some(minimum_version), ..self }
    }

    /// The nested object for these options.
    pub fn to_wire(&self) -> (r: Vec<Entry>)
        ensures
            entries_view(r@) == android_wire(*self),
    {
        let mut v: Vec<Entry> = Vec::new();
        assert(entries_view(v@) =~= seq![]);
        if let Some(b) = self.install_app {
            push_entry(&mut v, "installApp", Scalar::Flag(b));
        }
        assert(entries_view(v@) =~= optional(
            self.install_app,
            |b: bool| ("installApp"@, ScalarView::Flag(b)),
        ));
        if let Some(m) = &self.minimum_version {
            push_entry(&mut v, "minimumVersion", Scalar::Text(m.clone()));
        }
        assert(entries_view(v@) =~= optional(
            self.install_app,
            |b: bool| ("installApp"@, ScalarView::Flag(b)),
        ) + optional(
            self.minimum_version,
            |s: String| ("minimumVersion"@, ScalarView::Text(s@)),
        ));
        push_entry(&mut v, "packageName", Scalar::Text(self.package_name.clone()));
        assert(entries_view(v@) =~= android_wire(*self));
        v
    }
}

impl IOSActionCodeSettings {
    pub fn new(bundle_id: String) -> (r: Self)
        ensures
            r.bundle_id == bundle_id,
    {
        IOSActionCodeSettings { bundle_id }
    }

    /// The nested object for these options.
    pub fn to_wire(&self) -> (r: Vec<Entry>)
        ensures
            entries_view(r@) == ios_wire(*self),
    {
        let mut v: Vec<Entry> = Vec::new();
        push_entry(&mut v, "bundleId", Scalar::Text(self.bundle_id.clone()));
        assert(entries_view(v@) =~= ios_wire(*self));
        v
    }
}

impl ActionCodeSettings {
    /// Settings with the required continuation `url` and every option unset.
    pub fn new(url: String) -> (r: Self)
        ensures
            r.url == url,
            r.android is None,
            r.handle_code_in_app is None,
            r.ios is None,
            r.dynamic_link_domain is None,
    {
        ActionCodeSettings {
            android: None,
            handle_code_in_app: None,
            ios: None,
            url,
            dynamic_link_domain: None,
        }
    }

    pub fn with_android(self, android: AndroidActionCodeSettings) -> (r: Self)
        ensures
            r == (Self { android: Some(android), ..self }),
    {
        ActionCodeSettings { android: Some(android), ..self }
    }

    pub fn with_handle_code_in_app(self, handle_code_in_app: bool) -> (r: Self)
        ensures
            r == (Self { handle_code_in_app: Some(handle_code_in_app), ..self }),
    {
        ActionCodeSettings { handle_code_in_app: Some(handle_code_in_app), ..self }
    }

    pub fn with_ios(self, ios: IOSActionCodeSettings) -> (r: Self)
        ensures
            r == (Self { ios: Some(ios), ..self }),
    {
        ActionCodeSettings { ios: Some(ios), ..self }
    }

    pub fn with_dynamic_link_domain(self, domain: String) -> (r: Self)
        ensures
            r == (Self { dynamic_link_domain: Some(domain), ..self }),
    {
        ActionCodeSettings { dynamic_link_domain: Some(domain), ..self }
    }

    /// The object that the platform's send-link call takes: camelCase keys,
    /// each unset option left out.
    pub fn to_wire(&self) -> (r: WireObject)
        ensures
            r@ == settings_wire(*self),
    {
        let ghost s = *self;
        let mut v: Vec<WireField> = Vec::new();
        assert(fields_view(v@) =~= seq![]);
        if let Some(a) = &self.android {
            push_field(&mut v, "android", WireValue::Object(a.to_wire()));
        }
        assert(fields_view(v@) =~= android_part(s));
        if let Some(b) = self.handle_code_in_app {
            push_field(&mut v, "handleCodeInApp", WireValue::Scalar(Scalar::Flag(b)));
        }
        assert(fields_view(v@) =~= android_part(s) + handle_part(s));
        if let Some(i) = &self.ios {
            push_field(&mut v, "ios", WireValue::Object(i.to_wire()));
        }
        assert(fields_view(v@) =~= android_part(s) + handle_part(s) + ios_part(s));
        push_field(&mut v, "url", WireValue::Scalar(Scalar::Text(self.url.clone())));
        assert(fields_view(v@) =~= android_part(s) + handle_part(s) + ios_part(s) + url_part(s));
        if let Some(d) = &self.dynamic_link_domain {
            push_field(&mut v, "dynamicLinkDomain", WireValue::Scalar(Scalar::Text(d.clone())));
        }
        assert(fields_view(v@) =~= settings_wire(s));
        WireObject { fields: v }
    }
}

/// The length and first character of each key. No two keys agree in both.
proof fn lemma_key_shapes()
    ensures
        "url"@.len() == 3 && "url"@[0] == 'u',
        "android"@.len() == 7 && "android"@[0] == 'a',
        "ios"@.len() == 3 && "ios"@[0] == 'i',
        "handleCodeInApp"@.len() == 15 && "handleCodeInApp"@[0] == 'h',
        "dynamicLinkDomain"@.len() == 17 && "dynamicLinkDomain"@[0] == 'd',
        "installApp"@.len() == 10 && "installApp"@[0] == 'i',
        "minimumVersion"@.len() == 14 && "minimumVersion"@[0] == 'm',
        "packageName"@.len() == 11 && "packageName"@[0] == 'p',
        "bundleId"@.len() == 8 && "bundleId"@[0] == 'b',
{
    assert("url"@.len() == 3 && "url"@[0] == 'u') by {
        reveal_strlit("url");
    }
    assert("android"@.len() == 7 && "android"@[0] == 'a') by {
        reveal_strlit("android");
    }
    assert("ios"@.len() == 3 && "ios"@[0] == 'i') by {
        reveal_strlit("ios");
    }
    assert("handleCodeInApp"@.len() == 15 && "handleCodeInApp"@[0] == 'h') by {
        reveal_strlit("handleCodeInApp");
    }
    assert("dynamicLinkDomain"@.len() == 17 && "dynamicLinkDomain"@[0] == 'd') by {
        reveal_strlit("dynamicLinkDomain");
    }
    assert("installApp"@.len() == 10 && "installApp"@[0] == 'i') by {
        reveal_strlit("installApp");
    }
    assert("minimumVersion"@.len() == 14 && "minimumVersion"@[0] == 'm') by {
        reveal_strlit("minimumVersion");
    }
    assert("packageName"@.len() == 11 && "packageName"@[0] == 'p') by {
        reveal_strlit("packageName");
    }
    assert("bundleId"@.len() == 8 && "bundleId"@[0] == 'b') by {
        reveal_strlit("bundleId");
    }
}

/// The keys of the Android object: the package name always, each other
/// option exactly when it is set.
pub proof fn lemma_android_keys(a: AndroidActionCodeSettings)
    ensures
        keys_of(android_wire(a)).contains("packageName"@),
        keys_of(android_wire(a)).contains("installApp"@) <==> a.install_app is Some,
        keys_of(android_wire(a)).contains("minimumVersion"@) <==> a.minimum_version is Some,
{
    broadcast use vstd::seq_lib::lemma_seq_concat_contains_all_elements, vstd::seq_lib::lemma_seq_contains;

    lemma_key_shapes();
    let install = optional(a.install_app, |b: bool| ("installApp"@, ScalarView::Flag(b)));
    let minimum = optional(a.minimum_version, |t: String| ("minimumVersion"@, ScalarView::Text(t@)));
    assert(keys_of(android_wire(a)) =~= keys_of(install) + keys_of(minimum) + seq!["packageName"@]);
    assert(seq!["packageName"@][0] == "packageName"@);
    if a.install_app is Some {
        assert(keys_of(install) =~= seq!["installApp"@]);
        assert(keys_of(install)[0] == "installApp"@);
    } else {
        assert(keys_of(install) =~= seq![]);
    }
    if a.minimum_version is Some {
        assert(keys_of(minimum) =~= seq!["minimumVersion"@]);
        assert(keys_of(minimum)[0] == "minimumVersion"@);
    } else {
        assert(keys_of(minimum) =~= seq![]);
    }
}

/// The keys that one optional part of the object contributes: its own key
/// when the option is set, none otherwise.
proof fn lemma_part_keys(s: ActionCodeSettings)
    ensures
        keys_of(settings_wire(s)) == keys_of(android_part(s)) + keys_of(handle_part(s))
            + keys_of(ios_part(s)) + keys_of(url_part(s)) + keys_of(domain_part(s)),
        keys_of(url_part(s)) == seq!["url"@],
        keys_of(android_part(s)) == (if s.android is Some { seq!["android"@] } else { seq![] }),
        keys_of(handle_part(s)) == (if s.handle_code_in_app is Some {
            seq!["handleCodeInApp"@]
        } else {
            seq![]
        }),
        keys_of(ios_part(s)) == (if s.ios is Some { seq!["ios"@] } else { seq![] }),
        keys_of(domain_part(s)) == (if s.dynamic_link_domain is Some {
            seq!["dynamicLinkDomain"@]
        } else {
            seq![]
        }),
{
    assert(keys_of(settings_wire(s)) =~= keys_of(android_part(s)) + keys_of(handle_part(s))
        + keys_of(ios_part(s)) + keys_of(url_part(s)) + keys_of(domain_part(s)));
    assert(keys_of(url_part(s)) =~= seq!["url"@]);
    assert(keys_of(android_part(s)) =~= (if s.android is Some { seq!["android"@] } else { seq![] }));
    assert(keys_of(handle_part(s)) =~= (if s.handle_code_in_app is Some {
        seq!["handleCodeInApp"@]
    } else {
        seq![]
    }));
    assert(keys_of(ios_part(s)) =~= (if s.ios is Some { seq!["ios"@] } else { seq![] }));
    assert(keys_of(domain_part(s)) =~= (if s.dynamic_link_domain is Some {
        seq!["dynamicLinkDomain"@]
    } else {
        seq![]
    }));
}

/// A set option appears as a key of the serialized object and an unset one
/// does not; the continuation url is always there.
pub proof fn lemma_unset_options_omitted(s: ActionCodeSettings)
    ensures
        keys_of(settings_wire(s)).contains("url"@),
        keys_of(settings_wire(s)).contains("android"@) <==> s.android is Some,
        keys_of(settings_wire(s)).contains("handleCodeInApp"@) <==> s.handle_code_in_app is Some,
        keys_of(settings_wire(s)).contains("ios"@) <==> s.ios is Some,
        keys_of(settings_wire(s)).contains("dynamicLinkDomain"@) <==> s.dynamic_link_domain is Some,
{
    broadcast use vstd::seq_lib::lemma_seq_concat_contains_all_elements, vstd::seq_lib::lemma_seq_contains;

    lemma_key_shapes();
    lemma_part_keys(s);
    assert(seq!["url"@][0] == "url"@);
    assert(seq!["android"@][0] == "android"@);
    assert(seq!["handleCodeInApp"@][0] == "handleCodeInApp"@);
    assert(seq!["ios"@][0] == "ios"@);
    assert(seq!["dynamicLinkDomain"@][0] == "dynamicLinkDomain"@);
}

} // verus!
