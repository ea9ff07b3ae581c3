//! Compatibility libraries recommended for a Windows application, by release year.
use vstd::prelude::*;

verus! {

/// Libraries that every application gets, whatever its year.
pub open spec fn common_spec() -> Seq<&'static str> {
    seq!["xact", "xact_x64", "xinput", "binkw32", "xaudio29", "openal"]
}

/// Index of the Visual C++ runtime bracket that holds `year`.
pub open spec fn vcrun_bracket(year: u32) -> int {
    if year < 2003 {
        0
    } else if year <= 2008 {
        1
    } else if year <= 2011 {
        2
    } else if year <= 2015 {
        3
    } else if year <= 2019 {
        4
    } else {
        5
    }
}

/// Visual C++ runtimes of each bracket, oldest bracket first.
pub open spec fn vcrun_table(i: int) -> Seq<&'static str> {
    if i == 0 {
        seq!["vcrun6"]
    } else if i == 1 {
        seq!["vcrun2003", "vcrun2005", "vcrun2008"]
    } else if i == 2 {
        seq!["vcrun2005", "vcrun2008", "vcrun6sp6", "vcrun2010"]
    } else if i == 3 {
        seq!["vcrun2008", "vcrun2012", "vcrun2013"]
    } else if i == 4 {
        seq!["vcrun2013", "vcrun2015", "vcrun2017"]
    } else {
        seq!["vcrun2017", "vcrun2019", "vcrun2022"]
    }
}

pub open spec fn vcrun_spec(year: u32) -> Seq<&'static str> {
    vcrun_table(vcrun_bracket(year))
}

/// Index of the Visual Basic runtime bracket that holds `year`.
pub open spec fn vbrun_bracket(year: u32) -> int {
    if year <= 1993 {
        0
    } else if year <= 1998 {
        1
    } else if year <= 2001 {
        2
    } else {
        3
    }
}

/// Visual Basic runtimes of each bracket, oldest bracket first.
pub open spec fn vbrun_table(i: int) -> Seq<&'static str> {
    if i == 0 {
        seq!["vb2run"]
    } else if i == 1 {
        seq!["vb2run", "vb3run", "vb4run"]
    } else if i == 2 {
        seq!["vb3run", "vb4run", "dx8vb", "vb5run"]
    } else {
        seq!["vb6run", "dx8vb"]
    }
}

pub open spec fn vbrun_spec(year: u32) -> Seq<&'static str> {
    vbrun_table(vbrun_bracket(year))
}

/// Index of the .NET runtime bracket that holds `year`.
pub open spec fn dotnet_bracket(year: u32) -> int {
    if year <= 2004 {
        0
    } else if year <= 2006 {
        1
    } else if year == 2007 {
        2
    } else if year == 2008 {
        3
    } else if year <= 2011 {
        4
    } else if year == 2012 {
        5
    } else if year <= 2015 {
        6
    } else if year == 2016 {
        7
    } else if year <= 2018 {
        8
    } else if year == 2019 {
        9
    } else if year == 2020 {
        10
    } else if year <= 2023 {
        11
    } else {
        12
    }
}

/// .NET runtimes of each bracket, oldest bracket first.
pub open spec fn dotnet_table(i: int) -> Seq<&'static str> {
    if i == 0 {
        seq!["dotnet11", "dotnet11sp1"]
    } else if i == 1 {
        seq!["dotnet11sp1", "dotnet20", "dotnet30"]
    } else if i == 2 {
        seq!["dotnet20", "dotnet30sp1", "dotnet35"]
    } else if i == 3 {
        seq!["dotnet20sp1", "dotnet35sp1"]
    } else if i == 4 {
        seq!["dotnet20sp2", "dotnet40", "dotnet35sp1"]
    } else if i == 5 {
        seq!["dotnet45", "dotnet452", "dotnet35sp1"]
    } else if i == 6 {
        seq!["dotnet35sp1", "dotnet461", "dotnet46"]
    } else if i == 7 {
        seq!["dotnet35sp1", "dotnet46", "dotnet462"]
    } else if i == 8 {
        seq!["dotnet35sp1", "dotnet46", "dotnet471", "dotnet472"]
    } else if i == 9 {
        seq!["dotnet471", "dotnet472", "dotnet48"]
    } else if i == 10 {
        seq!["dotnet471", "dotnet472", "dotnet48", "dotnetcore2", "dotnetcore3"]
    } else if i == 11 {
        seq!["dotnet48", "dotnetcore2", "dotnetcore3", "dotnet6", "dotnet7"]
    } else {
        seq!["dotnetcore2", "dotnetcore3", "dotnet6", "dotnet7", "dotnet8"]
    }
}

pub open spec fn dotnet_spec(year: u32) -> Seq<&'static str> {
    dotnet_table(dotnet_bracket(year))
}

/// Windows Media Player version for `year`.
pub open spec fn wmp_spec(year: u32) -> Seq<&'static str> {
    if year < 2006 {
        seq!["wmp9"]
    } else if year < 2007 {
        seq!["wmp10"]
    } else {
        seq!["wmp11"]
    }
}

/// The recommended set: common libraries, then the Visual C++, Visual Basic and
/// .NET runtimes of the year's brackets. Media player versions are left out.
pub open spec fn recommend_spec(year: u32) -> Seq<&'static str> {
    common_spec() + vcrun_spec(year) + vbrun_spec(year) + dotnet_spec(year)
}

/// Years at which some family enters a new bracket.
pub open spec fn is_bracket_boundary(year: u32) -> bool {
    ||| year == 1994 || year == 1999 || year == 2002 || year == 2003
    ||| year == 2005 || year == 2007 || year == 2008 || year == 2009
    ||| year == 2012 || year == 2013 || year == 2016 || year == 2017
    ||| year == 2019 || year == 2020 || year == 2021
    ||| year == 2024
}

pub fn library_common() -> (r: Vec<&'static str>)
    ensures
        r@ == common_spec(),
{
    vec!["xact", "xact_x64", "xinput", "binkw32", "xaudio29", "openal"]
}

pub fn library_vcrun(year: u32) -> (r: Vec<&'static str>)
    ensures
        r@ == vcrun_spec(year),
{
    if year < 2003 {
        vec!["vcrun6"]
    } else if year <= 2008 {
        vec!["vcrun2003", "vcrun2005", "vcrun2008"]
    } else if year <= 2011 {
        vec!["vcrun2005", "vcrun2008", "vcrun6sp6", "vcrun2010"]
    } else if year <= 2015 {
        vec!["vcrun2008", "vcrun2012", "vcrun2013"]
    } else if year <= 2019 {
        vec!["vcrun2013", "vcrun2015", "vcrun2017"]
    } else {
        vec!["vcrun2017", "vcrun2019", "vcrun2022"]
    }
}

pub fn library_vbrun(year: u32) -> (r: Vec<&'static str>)
    ensures
        r@ == vbrun_spec(year),
{
    if year <= 1993 {
        vec!["vb2run"]
    } else if year <= 1998 {
        vec!["vb2run", "vb3run", "vb4run"]
    } else if year <= 2001 {
        vec!["vb3run", "vb4run", "dx8vb", "vb5run"]
    } else {
        vec!["vb6run", "dx8vb"]
    }
}

pub fn library_dotnet(year: u32) -> (r: Vec<&'static str>)
    ensures
        r@ == dotnet_spec(year),
{
    if year <= 2004 {
        vec!["dotnet11", "dotnet11sp1"]
    } else if year <= 2006 {
        vec!["dotnet11sp1", "dotnet20", "dotnet30"]
    } else if year == 2007 {
        vec!["dotnet20", "dotnet30sp1", "dotnet35"]
    } else if year == 2008 {
        vec!["dotnet20sp1", "dotnet35sp1"]
    } else if year <= 2011 {
        vec!["dotnet20sp2", "dotnet40", "dotnet35sp1"]
    } else if year == 2012 {
        vec!["dotnet45", "dotnet452", "dotnet35sp1"]
    } else if year <= 2015 {
        vec!["dotnet35sp1", "dotnet461", "dotnet46"]
    } else if year == 2016 {
        vec!["dotnet35sp1", "dotnet46", "dotnet462"]
    } else if year <= 2018 {
        vec!["dotnet35sp1", "dotnet46", "dotnet471", "dotnet472"]
    } else if year == 2019 {
        vec!["dotnet471", "dotnet472", "dotnet48"]
    } else if year == 2020 {
        vec!["dotnet471", "dotnet472", "dotnet48", "dotnetcore2", "dotnetcore3"]
    } else if year <= 2023 {
        vec!["dotnet48", "dotnetcore2", "dotnetcore3", "dotnet6", "dotnet7"]
    } else {
        vec!["dotnetcore2", "dotnetcore3", "dotnet6", "dotnet7", "dotnet8"]
    }
}

pub fn library_wmp(year: u32) -> (r: Vec<&'static str>)
    ensures
        r@ == wmp_spec(year),
{
    if year < 2006 {
        vec!["wmp9"]
    } else if year < 2007 {
        vec!["wmp10"]
    } else {
        vec!["wmp11"]
    }
}

/// The libraries recommended for an application released in `year`.
pub fn get_recomends_winetricks(year: u32) -> (r: Vec<&'static str>)
    ensures
        r@ == recommend_spec(year),
{
    let mut libraries: Vec<&'static str> = Vec::new();
    libraries.append(&mut library_common());
    libraries.append(&mut library_vcrun(year));
    libraries.append(&mut library_vbrun(year));
    libraries.append(&mut library_dotnet(year));
    libraries
}

/// An early year gets the common libraries and the earliest bracket of each
/// runtime family.
pub proof fn lemma_recommend_earliest()
    ensures
        recommend_spec(1990) == common_spec() + vcrun_table(0) + vbrun_table(0) + dotnet_table(0),
        recommend_spec(1990).to_set() == common_spec().to_set() + vcrun_table(0).to_set()
            + vbrun_table(0).to_set() + dotnet_table(0).to_set(),
{
    let (c, a, b, d) = (common_spec(), vcrun_table(0), vbrun_table(0), dotnet_table(0));
    vstd::seq_lib::seq_to_set_distributes_over_add(c, a);
    vstd::seq_lib::seq_to_set_distributes_over_add(c + a, b);
    vstd::seq_lib::seq_to_set_distributes_over_add(c + a + b, d);
}

/// A recent year gets the common libraries and the latest bracket of each
/// runtime family.
pub proof fn lemma_recommend_latest()
    ensures
        recommend_spec(2024) == common_spec() + vcrun_table(5) + vbrun_table(3) + dotnet_table(12),
        recommend_spec(2024).to_set() == common_spec().to_set() + vcrun_table(5).to_set()
            + vbrun_table(3).to_set() + dotnet_table(12).to_set(),
{
    let (c, a, b, d) = (common_spec(), vcrun_table(5), vbrun_table(3), dotnet_table(12));
    vstd::seq_lib::seq_to_set_distributes_over_add(c, a);
    vstd::seq_lib::seq_to_set_distributes_over_add(c + a, b);
    vstd::seq_lib::seq_to_set_distributes_over_add(c + a + b, d);
}

/// The recommendation for the next year is the same unless that year starts a
/// new bracket of some family.
pub proof fn lemma_changes_only_at_boundaries(year: u32)
    requires
        year < u32::MAX,
        !is_bracket_boundary((year + 1) as u32),
    ensures
        recommend_spec((year + 1) as u32) == recommend_spec(year),
{
    let next = (year + 1) as u32;
    assert(vcrun_bracket(next) == vcrun_bracket(year));
    assert(vbrun_bracket(next) == vbrun_bracket(year));
    assert(dotnet_bracket(next) == dotnet_bracket(year));
}

/// Two years in the same bracket of every family get the same recommendation.
pub proof fn lemma_same_brackets_same_recommendation(y1: u32, y2: u32)
    requires
        vcrun_bracket(y1) == vcrun_bracket(y2),
        vbrun_bracket(y1) == vbrun_bracket(y2),
        dotnet_bracket(y1) == dotnet_bracket(y2),
    ensures
        recommend_spec(y1) == recommend_spec(y2),
{
}

/// Each family's bracket index never decreases as the year grows, so every
/// bracket is one interval of years.
pub proof fn lemma_brackets_monotone(y1: u32, y2: u32)
    requires
        y1 <= y2,
    ensures
        vcrun_bracket(y1) <= vcrun_bracket(y2),
        vbrun_bracket(y1) <= vbrun_bracket(y2),
        dotnet_bracket(y1) <= dotnet_bracket(y2),
{
}

/// A year between two years with the same recommendation, all three in the
/// same brackets, gets that recommendation too: brackets are intervals.
pub proof fn lemma_brackets_are_intervals(y1: u32, y2: u32, y3: u32)
    requires
        y1 <= y2 <= y3,
        vcrun_bracket(y1) == vcrun_bracket(y3),
        vbrun_bracket(y1) == vbrun_bracket(y3),
        dotnet_bracket(y1) == dotnet_bracket(y3),
    ensures
        vcrun_bracket(y2) == vcrun_bracket(y1),
        vbrun_bracket(y2) == vbrun_bracket(y1),
        dotnet_bracket(y2) == dotnet_bracket(y1),
        recommend_spec(y2) == recommend_spec(y1),
{
    lemma_brackets_monotone(y1, y2);
    lemma_brackets_monotone(y2, y3);
}

/// The latest bracket of each family is open-ended: it holds every year after
/// 2023.
pub proof fn lemma_latest_brackets_open_ended(year: u32)
    requires
        year > 2023,
    ensures
        vcrun_bracket(year) == 5,
        vbrun_bracket(year) == 3,
        dotnet_bracket(year) == 12,
        recommend_spec(year) == recommend_spec(2024),
{
}

} // verus!
