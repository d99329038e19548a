use vstd::prelude::*;

verus! {

/// The names in `required` that do not occur in `available`, in the order in
/// which they were required.
pub open spec fn missing_names(required: Seq<Seq<char>>, available: Seq<Seq<char>>) -> Seq<Seq<char>> {
    required.filter(absent_from(available))
}

/// The predicate "does not occur in `available`".
pub open spec fn absent_from(available: Seq<Seq<char>>) -> spec_fn(Seq<char>) -> bool {
    |n: Seq<char>| !available.contains(n)
}

/// The unsupported list is complete: a name is reported exactly when it is
/// required and not available, so no missing name is ever left out.
pub proof fn lemma_missing_names_complete(required: Seq<Seq<char>>, available: Seq<Seq<char>>, n: Seq<char>)
    ensures
        missing_names(required, available).contains(n) <==> (required.contains(n) && !available.contains(n)),
{
    let p = absent_from(available);
    if missing_names(required, available).contains(n) {
        required.lemma_filter_contains_rev(p, n);
        let i = choose|i: int| 0 <= i < required.filter(p).len() && required.filter(p)[i] == n;
        required.lemma_filter_pred(p, i);
    }
    if required.contains(n) && !available.contains(n) {
        let i = choose|i: int| 0 <= i < required.len() && required[i] == n;
        required.lemma_filter_contains(p, i);
    }
}

/// Why the process-wide API context could not be created.
#[derive(Debug)]
pub enum InstanceCreateError {
    /// The driver reported a failure (its raw result code).
    VkError(i32),
    /// Every required validation layer that the driver does not offer.
    UnsupportedValidationLayers(Vec<String>),
    /// Every required instance extension that the driver does not offer.
    UnsupportedExtensions(Vec<String>),
    /// Both kinds are missing: every unsupported extension and every
    /// unsupported validation layer.
    UnsupportedExtensionsAndLayers { extensions: Vec<String>, layers: Vec<String> },
}

/// Whether `name` occurs in `names`.
pub fn contains_name(names: &Vec<String>, name: &String) -> (r: bool)
    ensures
        r == names.deep_view().contains(name@),
{
    let mut i: usize = 0;
    while i < names.len()
        invariant
            0 <= i <= names.len(),
            forall|j: int| 0 <= j < i ==> names.deep_view()[j] != name@,
        decreases names.len() - i,
    {
        if names[i] == *name {
            assert(names.deep_view()[i as int] == name@);
            return true;
        }
        i += 1;
    }
    proof {
        if names.deep_view().contains(name@) {
            let k = choose|k: int| 0 <= k < names.deep_view().len() && names.deep_view()[k] == name@;
            assert(names.deep_view()[k] == name@);
        }
    }
    false
}

/// Every name of `required` that `available` lacks, in order: the full list,
/// never only the first one found.
pub fn unsupported_names(required: &Vec<String>, available: &Vec<String>) -> (r: Vec<String>)
    ensures
        r.deep_view() == missing_names(required.deep_view(), available.deep_view()),
{
    let ghost pred = absent_from(available.deep_view());
    let mut out: Vec<String> = Vec::new();
    let mut i: usize = 0;
    while i < required.len()
        invariant
            0 <= i <= required.len(),
            pred == absent_from(available.deep_view()),
            out.deep_view() == required.deep_view().take(i as int).filter(pred),
        decreases required.len() - i,
    {
        let name = required[i].clone();
        let supported = contains_name(available, &name);
        let ghost before = out.deep_view();
        proof {
            assert(required.deep_view()[i as int] == name@);
            required.deep_view().lemma_take_succ_push(i as int);
            required.deep_view().take(i as int).lemma_filter_push(name@, pred);
        }
        if !supported {
            out.push(name);
            assert(out.deep_view() =~= before.push(name@));
        }
        i += 1;
    }
    assert(required.deep_view().take(required.len() as int) =~= required.deep_view());
    out
}

/// The instance extensions of `required` that the driver does not offer.
pub fn get_unsupported_instance_extensions(required: &Vec<String>, available: &Vec<String>) -> (r: Vec<String>)
    ensures
        r.deep_view() == missing_names(required.deep_view(), available.deep_view()),
{
    unsupported_names(required, available)
}

/// The validation layers of `required` that the driver does not offer.
pub fn get_unsupported_validation_layers(required: &Vec<String>, available: &Vec<String>) -> (r: Vec<String>)
    ensures
        r.deep_view() == missing_names(required.deep_view(), available.deep_view()),
{
    unsupported_names(required, available)
}

/// Name of the debug-messaging instance extension.
pub open spec fn debug_utils_name() -> Seq<char> {
    "VK_EXT_debug_utils"@
}

/// Name of the standard validation layer.
pub open spec fn validation_layer_name() -> Seq<char> {
    "VK_LAYER_KHRONOS_validation"@
}

/// The instance extensions to enable: debug messaging when validation is on,
/// then whatever the window system needs to create surfaces.
pub fn get_required_instance_extensions(validation_enabled: bool, surface_extensions: &Vec<String>) -> (r: Vec<String>)
    ensures
        r.deep_view() == (if validation_enabled { seq![debug_utils_name()] } else { Seq::empty() })
            + surface_extensions.deep_view(),
{
    let mut out: Vec<String> = Vec::new();
    if validation_enabled {
        out.push("VK_EXT_debug_utils".to_owned());
        proof {
            reveal_strlit("VK_EXT_debug_utils");
        }
    }
    let ghost prefix = out.deep_view();
    assert(prefix =~= (if validation_enabled { seq![debug_utils_name()] } else { Seq::empty() }));
    let mut i: usize = 0;
    while i < surface_extensions.len()
        invariant
            0 <= i <= surface_extensions.len(),
            out.deep_view() == prefix + surface_extensions.deep_view().take(i as int),
        decreases surface_extensions.len() - i,
    {
        let name = surface_extensions[i].clone();
        let ghost before = out.deep_view();
        assert(name@ == surface_extensions.deep_view()[i as int]);
        out.push(name);
        assert(out.deep_view() =~= before.push(name@));
        assert(out.deep_view() =~= prefix + surface_extensions.deep_view().take(i + 1));
        i += 1;
    }
    assert(surface_extensions.deep_view().take(i as int) =~= surface_extensions.deep_view());
    out
}

/// The validation layers to enable when validation is on.
pub fn get_required_validation_layers() -> (r: Vec<String>)
    ensures
        r.deep_view() == seq![validation_layer_name()],
{
    let mut out: Vec<String> = Vec::new();
    out.push("VK_LAYER_KHRONOS_validation".to_owned());
    proof {
        reveal_strlit("VK_LAYER_KHRONOS_validation");
    }
    assert(out.deep_view() =~= seq![validation_layer_name()]);
    out
}

/// Decides whether the instance can be created with what the driver offers.
/// Every unsupported extension is reported, and, when validation is on,
/// every unsupported validation layer, both at once when both are missing.
pub fn check_instance_support(
    required_extensions: &Vec<String>,
    available_extensions: &Vec<String>,
    validation_enabled: bool,
    required_layers: &Vec<String>,
    available_layers: &Vec<String>,
) -> (r: Result<(), InstanceCreateError>)
    ensures
        ({
            let missing_ext = missing_names(required_extensions.deep_view(), available_extensions.deep_view());
            let missing_layers = if validation_enabled {
                missing_names(required_layers.deep_view(), available_layers.deep_view())
            } else {
                Seq::empty()
            };
            match r {
                Ok(()) => missing_ext.len() == 0 && missing_layers.len() == 0,
                Err(InstanceCreateError::UnsupportedExtensions(v)) => {
                    &&& missing_ext.len() > 0
                    &&& missing_layers.len() == 0
                    &&& v.deep_view() == missing_ext
                },
                Err(InstanceCreateError::UnsupportedValidationLayers(v)) => {
                    &&& missing_ext.len() == 0
                    &&& missing_layers.len() > 0
                    &&& v.deep_view() == missing_layers
                },
                Err(InstanceCreateError::UnsupportedExtensionsAndLayers { extensions, layers }) => {
                    &&& missing_ext.len() > 0
                    &&& missing_layers.len() > 0
                    &&& extensions.deep_view() == missing_ext
                    &&& layers.deep_view() == missing_layers
                },
                Err(InstanceCreateError::VkError(_)) => false,
            }
        }),
{
    let unsupported_extensions = get_unsupported_instance_extensions(required_extensions, available_extensions);
    let unsupported_layers = if validation_enabled {
        get_unsupported_validation_layers(required_layers, available_layers)
    } else {
        Vec::new()
    };
    proof {
        if !validation_enabled {
            assert(unsupported_layers.deep_view() =~= Seq::<Seq<char>>::empty());
        }
    }
    if unsupported_extensions.len() > 0 && unsupported_layers.len() > 0 {
        Err(InstanceCreateError::UnsupportedExtensionsAndLayers {
            extensions: unsupported_extensions,
            layers: unsupported_layers,
        })
    } else if unsupported_extensions.len() > 0 {
        Err(InstanceCreateError::UnsupportedExtensions(unsupported_extensions))
    } else if unsupported_layers.len() > 0 {
        Err(InstanceCreateError::UnsupportedValidationLayers(unsupported_layers))
    } else {
        Ok(())
    }
}

} // verus!
