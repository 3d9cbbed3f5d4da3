use vstd::prelude::*;

verus! {

/// The fixed registry of colour-gradient names the renderer understands.
/// A name outside this registry is never an error: selection falls back to
/// the default name, which is itself a member of the registry.
pub open spec fn is_gradient_name(s: Seq<char>) -> bool {
    ||| s == "CIVIDIS"@
    ||| s == "COOL"@
    ||| s == "CUBEHELIX"@
    ||| s == "INFERNO"@
    ||| s == "MAGMA"@
    ||| s == "PLASMA"@
    ||| s == "TURBO"@
    ||| s == "VIRIDIS"@
    ||| s == "WARM"@
    ||| s == "SINEBOW"@
    ||| s == "RAINBOW"@
}

/// The documented default gradient name, substituted for unrecognized names.
pub open spec fn default_gradient_name() -> Seq<char> {
    "RAINBOW"@
}

/// Equality of two string slices, decided by comparing their owned copies.
fn str_eq(a: &str, b: &str) -> (r: bool)
    ensures
        r == (a@ == b@),
{
    let owned_a: String = a.to_owned();
    let owned_b: String = b.to_owned();
    owned_a == owned_b
}

/// Whether `name` is a member of the gradient registry.
pub fn gradient_known(name: &str) -> (r: bool)
    ensures
        r == is_gradient_name(name@),
{
    str_eq(name, "CIVIDIS") || str_eq(name, "COOL") || str_eq(name, "CUBEHELIX")
        || str_eq(name, "INFERNO") || str_eq(name, "MAGMA") || str_eq(name, "PLASMA")
        || str_eq(name, "TURBO") || str_eq(name, "VIRIDIS") || str_eq(name, "WARM")
        || str_eq(name, "SINEBOW") || str_eq(name, "RAINBOW")
}

/// Validates `name` against the registry: a registered name is kept as the
/// active gradient, any other name silently falls back to the default.
pub fn select_gradient(name: &str) -> (r: String)
    ensures
        is_gradient_name(name@) ==> r@ == name@,
        !is_gradient_name(name@) ==> r@ == default_gradient_name(),
        is_gradient_name(r@),
{
    if gradient_known(name) {
        name.to_owned()
    } else {
        "RAINBOW".to_owned()
    }
}

} // verus!
