//! Naming the output of the audio filters.
use vstd::prelude::*;

verus! {

/// Filtering a file needs at least one filter.
#[derive(Clone, Copy, Debug, PartialEq, Eq, Structural)]
pub struct NoFilterEnabled;

/// The name of a filtered file: the source stem, then a tag for each enabled
/// filter with its settings, then the `.wav` extension.
pub open spec fn filtered_name_text(
    stem: Seq<char>,
    gain_ref: Option<Seq<char>>,
    band_pass: Option<(Seq<char>, Seq<char>)>,
) -> Seq<char> {
    let gain_tag = match gain_ref {
        Some(g) => "-gain"@ + g,
        None => Seq::empty(),
    };
    let band_tag = match band_pass {
        Some((low, high)) => "-bandpass"@ + low + "_"@ + high,
        None => Seq::empty(),
    };
    stem + gain_tag + band_tag + ".wav"@
}

/// The name of the file that filtering `stem`'s audio produces, given the
/// rendered gain reference of the gain normalizer and the rendered low and high
/// cutoffs of the band-pass filter, each `None` when that filter is off.
pub fn filtered_file_name(stem: &str, gain_ref: Option<&str>, band_pass: Option<(&str, &str)>) -> (r:
    Result<String, NoFilterEnabled>)
    ensures
        gain_ref is None && band_pass is None ==> r == Err::<String, NoFilterEnabled>(
            NoFilterEnabled,
        ),
        gain_ref is Some || band_pass is Some ==> r is Ok && r->Ok_0@ == filtered_name_text(
            stem@,
            match gain_ref {
                Some(g) => Some(g@),
                None => None,
            },
            match band_pass {
                Some((low, high)) => Some((low@, high@)),
                None => None,
            },
        ),
{
    if gain_ref.is_none() && band_pass.is_none() {
        return Err(NoFilterEnabled);
    }
    let mut name = String::from_str(stem);
    let ghost gain_tag: Seq<char> = Seq::empty();
    if let Some(g) = gain_ref {
        name.append("-gain");
        name.append(g);
        proof {
            gain_tag = "-gain"@ + g@;
        }
    }
    assert(name@ =~= stem@ + gain_tag);
    let ghost band_tag: Seq<char> = Seq::empty();
    if let Some((low, high)) = band_pass {
        name.append("-bandpass");
        name.append(low);
        name.append("_");
        name.append(high);
        proof {
            band_tag = "-bandpass"@ + low@ + "_"@ + high@;
        }
    }
    assert(name@ =~= stem@ + gain_tag + band_tag);
    name.append(".wav");
    Ok(name)
}

} // verus!
