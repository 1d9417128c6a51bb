use vstd::prelude::*;

verus! {

/// The settings file's path inside directory `dir`: a `/` goes between the
/// two unless `dir` is empty or already ends with one.
pub open spec fn config_path_of(dir: Seq<char>) -> Seq<char> {
    if dir.len() == 0 || dir.last() == '/' {
        dir + "config.json"@
    } else {
        dir + seq!['/'] + "config.json"@
    }
}

/// The path of the settings file inside the configuration directory
/// `config_dir`.
pub fn get_config_path(config_dir: &str) -> (r: String)
    ensures
        r@ == config_path_of(config_dir@),
{
    let mut r = String::from_str(config_dir);
    let n = config_dir.unicode_len();
    if n > 0 && config_dir.get_char(n - 1) != '/' {
        r.append("/");
        proof {
            reveal_strlit("/");
            assert(seq!['/'] =~= "/"@);
        }
    }
    r.append("config.json");
    r
}

/// Fills each sound path that is not set with its bundled default, and
/// keeps each one that is. Returns whether any was filled.
pub fn fill_default_paths(
    audio: &mut Option<String>,
    strike: &mut Option<String>,
    prelude: &mut Option<String>,
    chime_default: &str,
    prelude_default: &str,
) -> (changed: bool)
    ensures
        *old(audio) is Some ==> *final(audio) == *old(audio),
        *old(audio) is None ==> (*final(audio) matches Some(p) && p@ == chime_default@),
        *old(strike) is Some ==> *final(strike) == *old(strike),
        *old(strike) is None ==> (*final(strike) matches Some(p) && p@ == chime_default@),
        *old(prelude) is Some ==> *final(prelude) == *old(prelude),
        *old(prelude) is None ==> (*final(prelude) matches Some(p) && p@ == prelude_default@),
        changed == (*old(audio) is None || *old(strike) is None || *old(prelude) is None),
{
    let mut changed = false;
    if audio.is_none() {
        *audio = Some(String::from_str(chime_default));
        changed = true;
    }
    if strike.is_none() {
        *strike = Some(String::from_str(chime_default));
        changed = true;
    }
    if prelude.is_none() {
        *prelude = Some(String::from_str(prelude_default));
        changed = true;
    }
    changed
}

} // verus!
