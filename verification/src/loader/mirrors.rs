use vstd::prelude::*;

use crate::foundation::text::{append, chars_of, string_of, string_views};

verus! {

/// The Maven repositories tried for a library, in order.
pub open spec fn spec_mirrors() -> Seq<Seq<char>> {
    seq![
        "https://maven.minecraftforge.net"@,
        "https://maven.neoforged.net/releases"@,
        "https://maven.creeperhost.net"@,
        "https://libraries.minecraft.net"@,
        "https://repo1.maven.org/maven2"@,
    ]
}

/// The Maven repositories tried for a library, in order.
pub fn mirrors() -> (r: Vec<&'static str>)
    ensures
        r@.map_values(|m: &str| m@) == spec_mirrors(),
{
    let r: Vec<&'static str> = vec![
        "https://maven.minecraftforge.net",
        "https://maven.neoforged.net/releases",
        "https://maven.creeperhost.net",
        "https://libraries.minecraft.net",
        "https://repo1.maven.org/maven2",
    ];
    assert(r@.map_values(|m: &str| m@) =~= spec_mirrors());
    r
}

/// The URLs a library path is looked for at: `<mirror>/<base>` for each mirror, in order.
pub fn mirror_urls(base: &str) -> (r: Vec<String>)
    ensures
        string_views(r@) == spec_mirrors().map_values(|m: Seq<char>| m + "/"@ + base@),
{
    let all = mirrors();
    let mut r: Vec<String> = Vec::new();
    let mut i: usize = 0;
    while i < all.len()
        invariant
            i <= all.len(),
            all@.map_values(|m: &str| m@) == spec_mirrors(),
            string_views(r@) == spec_mirrors().subrange(0, i as int).map_values(|m: Seq<char>| m + "/"@ + base@),
        decreases all.len() - i,
    {
        let mut url = chars_of(all[i]);
        append(&mut url, "/");
        append(&mut url, base);
        let ghost rr = r@;
        r.push(string_of(&url));
        assert(spec_mirrors()[i as int] == all@[i as int]@);
        assert(spec_mirrors().subrange(0, i + 1) =~= spec_mirrors().subrange(0, i as int).push(spec_mirrors()[i as int]));
        assert(string_views(r@) =~= string_views(rr).push(url@));
        i = i + 1;
    }
    assert(spec_mirrors().subrange(0, 5) =~= spec_mirrors());
    r
}

} // verus!
