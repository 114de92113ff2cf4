//! The named character references of HTML.

use vstd::prelude::*;

verus! {

/// How many named character references the table holds.
pub const HTML_ENTITIES_COUNT: usize = 1452;

/// Each named character reference, without `&` and `;`, and the text it
/// stands for. Where a name occurs twice, the first entry counts.
pub const HTML_ENTITIES_TABLE: [(&'static str, &'static str); 1452] = [
    ("AElig", "\u{00C6}"),
    ("AMP", "\u{0026}"),
    ("Aacute", "\u{00C1}"),
    ("Abreve", "\u{0102}"),
    ("Acirc", "\u{00C2}"),
    ("Acy", "\u{0410}"),
    ("Afr", "\u{1D504}"),
    ("Agrave", "\u{00C0}"),
    ("Alpha", "\u{0391}"),
    ("Amacr", "\u{0100}"),
    ("And", "\u{2A53}"),
    ("Aogon", "\u{0104}"),
    ("Aopf", "\u{1D538}"),
    ("ApplyFunction", "\u{2061}"),
    ("Aring", "\u{00C5}"),
    ("Ascr", "\u{1D49C}"),
    ("Atilde", "\u{00C3}"),
    ("Auml", "\u{00C4}"),
    ("Barv", "\u{2AE7}"),
    ("Barwed", "\u{2306}"),
    ("Bcy", "\u{0411}"),
    ("Beta", "\u{0392}"),
    ("Bfr", "\u{1D505}"),
    ("Bopf", "\u{1D539}"),
    ("CHcy", "\u{0427}"),
    ("Cacute", "\u{0106}"),
    ("Cap", "\u{22D2}"),
    ("CapitalDifferentialD", "\u{2145}"),
    ("Ccaron", "\u{010C}"),
    ("Ccedil", "\u{00C7}"),
    ("Ccirc", "\u{0108}"),
    ("Cconint", "\u{2230}"),
    ("Cdot", "\u{010A}"),
    ("Cfr", "\u{212D}"),
    ("Chi", "\u{03A7}"),
    ("Colon", "\u{2237}"),
    ("Colone", "\u{2A74}"),
    ("Conint", "\u{222F}"),
    ("Copf", "\u{2102}"),
    ("Cross", "\u{2A2F}"),
    ("Cscr", "\u{1D49E}"),
    ("Cup", "\u{22D3}"),
    ("DDotrahd", "\u{2911}"),
    ("DJcy", "\u{0402}"),
    ("DScy", "\u{0405}"),
    ("DZcy", "\u{040F}"),
    ("Dagger", "\u{2021}"),
    ("Darr", "\u{21A1}"),
    ("Dashv", "\u{2AE4}"),
    ("Dcaron", "\u{010E}"),
    ("Dcy", "\u{0414}"),
    ("Delta", "\u{0394}"),
    ("Dfr", "\u{1D507}"),
    ("DifferentialD", "\u{2146}"),
    ("Dopf", "\u{1D53B}"),
    ("Dot", "\u{00A8}"),
    ("DotDot", "\u{20DC}"),
    ("DownArrowBar", "\u{2913}"),
    ("DownBreve", "\u{0311}"),
    ("DownLeftRightVector", "\u{2950}"),
    ("DownLeftTeeVector", "\u{295E}"),
    ("DownLeftVectorBar", "\u{2956}"),
    ("DownRightTeeVector", "\u{295F}"),
    ("DownRightVectorBar", "\u{2957}"),
    ("DownTeeArrow", "\u{21A7}"),
    ("Dscr", "\u{1D49F}"),
    ("Dstrok", "\u{0110}"),
    ("ENG", "\u{014A}"),
    ("ETH", "\u{00D0}"),
    ("Eacute", "\u{00C9}"),
    ("Ecaron", "\u{011A}"),
    ("Ecirc", "\u{00CA}"),
    ("Ecy", "\u{042D}"),
    ("Edot", "\u{0116}"),
    ("Efr", "\u{1D508}"),
    ("Egrave", "\u{00C8}"),
    ("Emacr", "\u{0112}"),
    ("EmptySmallSquare", "\u{25FB}"),
    ("EmptyVerySmallSquare", "\u{25AB}"),
    ("Eogon", "\u{0118}"),
    ("Eopf", "\u{1D53C}"),
    ("Epsilon", "\u{0395}"),
    ("Equal", "\u{2A75}"),
    ("Escr", "\u{2130}"),
    ("Esim", "\u{2A73}"),
    ("Eta", "\u{0397}"),
    ("Euml", "\u{00CB}"),
    ("ExponentialE", "\u{2147}"),
    ("Fcy", "\u{0424}"),
    ("Ffr", "\u{1D509}"),
    ("FilledSmallSquare", "\u{25FC}"),
    ("Fopf", "\u{1D53D}"),
    ("Fscr", "\u{2131}"),
    ("GJcy", "\u{0403}"),
    ("GT", "\u{003E}"),
    ("Gamma", "\u{0393}"),
    ("Gammad", "\u{03DC}"),
    ("Gbreve", "\u{011E}"),
    ("Gcedil", "\u{0122}"),
    ("Gcirc", "\u{011C}"),
    ("Gcy", "\u{0413}"),
    ("Gdot", "\u{0120}"),
    ("Gfr", "\u{1D50A}"),
    ("Gg", "\u{22D9}"),
    ("Gopf", "\u{1D53E}"),
    ("GreaterGreater", "\u{2AA2}"),
    ("Gscr", "\u{1D4A2}"),
    ("Gt", "\u{226B}"),
    ("HARDcy", "\u{042A}"),
    ("Hat", "\u{005E}"),
    ("Hcirc", "\u{0124}"),
    ("Hfr", "\u{210C}"),
    ("Hstrok", "\u{0126}"),
    ("IEcy", "\u{0415}"),
    ("IJlig", "\u{0132}"),
    ("IOcy", "\u{0401}"),
    ("Iacute", "\u{00CD}"),
    ("Icirc", "\u{00CE}"),
    ("Icy", "\u{0418}"),
    ("Idot", "\u{0130}"),
    ("Igrave", "\u{00CC}"),
    ("Imacr", "\u{012A}"),
    ("ImaginaryI", "\u{2148}"),
    ("Int", "\u{222C}"),
    ("InvisibleComma", "\u{2063}"),
    ("InvisibleTimes", "\u{2062}"),
    ("Iogon", "\u{012E}"),
    ("Iopf", "\u{1D540}"),
    ("Iota", "\u{0399}"),
    ("Iscr", "\u{2110}"),
    ("Itilde", "\u{0128}"),
    ("Iukcy", "\u{0406}"),
    ("Iuml", "\u{00CF}"),
    ("Jcirc", "\u{0134}"),
    ("Jcy", "\u{0419}"),
    ("Jfr", "\u{1D50D}"),
    ("Jopf", "\u{1D541}"),
    ("Jscr", "\u{1D4A5}"),
    ("Jsercy", "\u{0408}"),
    ("Jukcy", "\u{0404}"),
    ("KHcy", "\u{0425}"),
    ("KJcy", "\u{040C}"),
    ("Kappa", "\u{039A}"),
    ("Kcedil", "\u{0136}"),
    ("Kcy", "\u{041A}"),
    ("Kfr", "\u{1D50E}"),
    ("Kopf", "\u{1D542}"),
    ("Kscr", "\u{1D4A6}"),
    ("LJcy", "\u{0409}"),
    ("LT", "\u{003C}"),
    ("Lacute", "\u{0139}"),
    ("Lambda", "\u{039B}"),
    ("Lang", "\u{27EA}"),
    ("Larr", "\u{219E}"),
    ("Lcaron", "\u{013D}"),
    ("Lcedil", "\u{013B}"),
    ("Lcy", "\u{041B}"),
    ("LeftDownTeeVector", "\u{2961}"),
    ("LeftDownVectorBar", "\u{2959}"),
    ("LeftRightVector", "\u{294E}"),
    ("LeftTeeArrow", "\u{21A4}"),
    ("LeftTeeVector", "\u{295A}"),
    ("LeftTriangleBar", "\u{29CF}"),
    ("LeftUpDownVector", "\u{2951}"),
    ("LeftUpTeeVector", "\u{2960}"),
    ("LeftUpVectorBar", "\u{2958}"),
    ("LeftVectorBar", "\u{2952}"),
    ("LessLess", "\u{2AA1}"),
    ("Lfr", "\u{1D50F}"),
    ("Ll", "\u{22D8}"),
    ("Lmidot", "\u{013F}"),
    ("Lopf", "\u{1D543}"),
    ("Lscr", "\u{2112}"),
    ("Lstrok", "\u{0141}"),
    ("Lt", "\u{226A}"),
    ("Map", "\u{2905}"),
    ("Mcy", "\u{041C}"),
    ("MediumSpace", "\u{205F}"),
    ("Mfr", "\u{1D510}"),
    ("Mopf", "\u{1D544}"),
    ("Mu", "\u{039C}"),
    ("NJcy", "\u{040A}"),
    ("Nacute", "\u{0143}"),
    ("Ncaron", "\u{0147}"),
    ("Ncedil", "\u{0145}"),
    ("Ncy", "\u{041D}"),
    ("NewLine", "\u{000A}"),
    ("Nfr", "\u{1D511}"),
    ("NoBreak", "\u{2060}"),
    ("Nopf", "\u{2115}"),
    ("Not", "\u{2AEC}"),
    ("NotCupCap", "\u{226D}"),
    ("Nscr", "\u{1D4A9}"),
    ("Ntilde", "\u{00D1}"),
    ("Nu", "\u{039D}"),
    ("OElig", "\u{0152}"),
    ("Oacute", "\u{00D3}"),
    ("Ocirc", "\u{00D4}"),
    ("Ocy", "\u{041E}"),
    ("Odblac", "\u{0150}"),
    ("Ofr", "\u{1D512}"),
    ("Ograve", "\u{00D2}"),
    ("Omacr", "\u{014C}"),
    ("Omega", "\u{03A9}"),
    ("Omicron", "\u{039F}"),
    ("Oopf", "\u{1D546}"),
    ("Or", "\u{2A54}"),
    ("Oscr", "\u{1D4AA}"),
    ("Oslash", "\u{00D8}"),
    ("Otilde", "\u{00D5}"),
    ("Otimes", "\u{2A37}"),
    ("Ouml", "\u{00D6}"),
    ("OverBrace", "\u{23DE}"),
    ("OverParenthesis", "\u{23DC}"),
    ("Pcy", "\u{041F}"),
    ("Pfr", "\u{1D513}"),
    ("Phi", "\u{03A6}"),
    ("Pi", "\u{03A0}"),
    ("Popf", "\u{2119}"),
    ("Pr", "\u{2ABB}"),
    ("Prime", "\u{2033}"),
    ("Pscr", "\u{1D4AB}"),
    ("Psi", "\u{03A8}"),
    ("QUOT", "\u{0022}"),
    ("Qfr", "\u{1D514}"),
    ("Qscr", "\u{1D4AC}"),
    ("RBarr", "\u{2910}"),
    ("Racute", "\u{0154}"),
    ("Rang", "\u{27EB}"),
    ("Rarr", "\u{21A0}"),
    ("Rarrtl", "\u{2916}"),
    ("Rcaron", "\u{0158}"),
    ("Rcedil", "\u{0156}"),
    ("Rcy", "\u{0420}"),
    ("Rho", "\u{03A1}"),
    ("RightDownTeeVector", "\u{295D}"),
    ("RightDownVectorBar", "\u{2955}"),
    ("RightTeeVector", "\u{295B}"),
    ("RightTriangleBar", "\u{29D0}"),
    ("RightUpDownVector", "\u{294F}"),
    ("RightUpTeeVector", "\u{295C}"),
    ("RightUpVectorBar", "\u{2954}"),
    ("RightVectorBar", "\u{2953}"),
    ("RoundImplies", "\u{2970}"),
    ("Rscr", "\u{211B}"),
    ("RuleDelayed", "\u{29F4}"),
    ("SHCHcy", "\u{0429}"),
    ("SHcy", "\u{0428}"),
    ("SOFTcy", "\u{042C}"),
    ("Sacute", "\u{015A}"),
    ("Sc", "\u{2ABC}"),
    ("Scaron", "\u{0160}"),
    ("Scedil", "\u{015E}"),
    ("Scirc", "\u{015C}"),
    ("Scy", "\u{0421}"),
    ("Sfr", "\u{1D516}"),
    ("Sigma", "\u{03A3}"),
    ("Sopf", "\u{1D54A}"),
    ("Sscr", "\u{1D4AE}"),
    ("Su", "\u{22D0}"),
    ("Sup", "\u{22D1}"),
    ("THORN", "\u{00DE}"),
    ("TSHcy", "\u{040B}"),
    ("TScy", "\u{0426}"),
    ("Ta", "\u{0009}"),
    ("Tau", "\u{03A4}"),
    ("Tcaron", "\u{0164}"),
    ("Tcedil", "\u{0162}"),
    ("Tcy", "\u{0422}"),
    ("Tfr", "\u{1D517}"),
    ("Theta", "\u{0398}"),
    ("Topf", "\u{1D54B}"),
    ("Tscr", "\u{1D4AF}"),
    ("Tstrok", "\u{0166}"),
    ("Uacute", "\u{00DA}"),
    ("Uarr", "\u{219F}"),
    ("Uarrocir", "\u{2949}"),
    ("Ubrcy", "\u{040E}"),
    ("Ubreve", "\u{016C}"),
    ("Ucirc", "\u{00DB}"),
    ("Ucy", "\u{0423}"),
    ("Udblac", "\u{0170}"),
    ("Ufr", "\u{1D518}"),
    ("Ugrave", "\u{00D9}"),
    ("Umacr", "\u{016A}"),
    ("UnderBar", "\u{0332}"),
    ("UnderBrace", "\u{23DF}"),
    ("UnderParenthesis", "\u{23DD}"),
    ("Uogon", "\u{0172}"),
    ("Uopf", "\u{1D54C}"),
    ("UpArrowBar", "\u{2912}"),
    ("UpTeeArrow", "\u{21A5}"),
    ("Upsi", "\u{03D2}"),
    ("Upsilon", "\u{03A5}"),
    ("Uring", "\u{016E}"),
    ("Uscr", "\u{1D4B0}"),
    ("Utilde", "\u{0168}"),
    ("Uuml", "\u{00DC}"),
    ("VDash", "\u{22AB}"),
    ("Vbar", "\u{2AEB}"),
    ("Vcy", "\u{0412}"),
    ("Vdash", "\u{22A9}"),
    ("Vdashl", "\u{2AE6}"),
    ("Verbar", "\u{2016}"),
    ("VerticalSeparator", "\u{2758}"),
    ("Vfr", "\u{1D519}"),
    ("Vopf", "\u{1D54D}"),
    ("Vscr", "\u{1D4B1}"),
    ("Vvdash", "\u{22AA}"),
    ("Wcirc", "\u{0174}"),
    ("Wfr", "\u{1D51A}"),
    ("Wopf", "\u{1D54E}"),
    ("Wscr", "\u{1D4B2}"),
    ("Xfr", "\u{1D51B}"),
    ("Xi", "\u{039E}"),
    ("Xopf", "\u{1D54F}"),
    ("Xscr", "\u{1D4B3}"),
    ("YAcy", "\u{042F}"),
    ("YIcy", "\u{0407}"),
    ("YUcy", "\u{042E}"),
    ("Yacute", "\u{00DD}"),
    ("Ycirc", "\u{0176}"),
    ("Ycy", "\u{042B}"),
    ("Yfr", "\u{1D51C}"),
    ("Yopf", "\u{1D550}"),
    ("Yscr", "\u{1D4B4}"),
    ("Yuml", "\u{0178}"),
    ("ZHcy", "\u{0416}"),
    ("Zacute", "\u{0179}"),
    ("Zcaron", "\u{017D}"),
    ("Zcy", "\u{0417}"),
    ("Zdot", "\u{017B}"),
    ("ZeroWidthSpace", "\u{200B}"),
    ("Zeta", "\u{0396}"),
    ("Zfr", "\u{2128}"),
    ("Zscr", "\u{1D4B5}"),
    ("aacute", "\u{00E1}"),
    ("abreve", "\u{0103}"),
    ("ac", "\u{223E}"),
    ("acd", "\u{223F}"),
    ("acirc", "\u{00E2}"),
    ("acute", "\u{00B4}"),
    ("acy", "\u{0430}"),
    ("aelig", "\u{00E6}"),
    ("afr", "\u{1D51E}"),
    ("agrave", "\u{00E0}"),
    ("alefsym", "\u{2135}"),
    ("alpha", "\u{03B1}"),
    ("amacr", "\u{0101}"),
    ("amalg", "\u{2A3F}"),
    ("amp", "\u{0026}"),
    ("and", "\u{2227}"),
    ("andand", "\u{2A55}"),
    ("andd", "\u{2A5C}"),
    ("andslope", "\u{2A58}"),
    ("andv", "\u{2A5A}"),
    ("ang", "\u{2220}"),
    ("ange", "\u{29A4}"),
    ("angmsd", "\u{2221}"),
    ("angmsdaa", "\u{29A8}"),
    ("angmsda", "\u{29A9}"),
    ("angmsdac", "\u{29AA}"),
    ("angmsdad", "\u{29AB}"),
    ("angmsdae", "\u{29AC}"),
    ("angmsdaf", "\u{29AD}"),
    ("angmsdag", "\u{29AE}"),
    ("angmsdah", "\u{29AF}"),
    ("angrt", "\u{221F}"),
    ("angrtv", "\u{22BE}"),
    ("angrtvbd", "\u{299D}"),
    ("angsph", "\u{2222}"),
    ("angst", "\u{212B}"),
    ("angzarr", "\u{237C}"),
    ("aogon", "\u{0105}"),
    ("aopf", "\u{1D552}"),
    ("apE", "\u{2A70}"),
    ("apacir", "\u{2A6F}"),
    ("ape", "\u{224A}"),
    ("apid", "\u{224B}"),
    ("apos", "\u{0027}"),
    ("aring", "\u{00E5}"),
    ("ascr", "\u{1D4B6}"),
    ("ast", "\u{002A}"),
    ("asymp", "\u{2248}"),
    ("asympeq", "\u{224D}"),
    ("atilde", "\u{00E3}"),
    ("auml", "\u{00E4}"),
    ("awconint", "\u{2233}"),
    ("awint", "\u{2A11}"),
    ("bNot", "\u{2AED}"),
    ("barvee", "\u{22BD}"),
    ("barwed", "\u{2305}"),
    ("bbrk", "\u{23B5}"),
    ("bbrktbrk", "\u{23B6}"),
    ("bcong", "\u{224C}"),
    ("bcy", "\u{0431}"),
    ("becaus", "\u{2235}"),
    ("bemptyv", "\u{29B0}"),
    ("bepsi", "\u{03F6}"),
    ("bernou", "\u{212C}"),
    ("beta", "\u{03B2}"),
    ("beth", "\u{2136}"),
    ("bfr", "\u{1D51F}"),
    ("blank", "\u{2423}"),
    ("blk12", "\u{2592}"),
    ("blk14", "\u{2591}"),
    ("blk34", "\u{2593}"),
    ("block", "\u{2588}"),
    ("bnot", "\u{2310}"),
    ("bopf", "\u{1D553}"),
    ("bottom", "\u{22A5}"),
    ("bowtie", "\u{22C8}"),
    ("boxDL", "\u{2557}"),
    ("boxDR", "\u{2554}"),
    ("boxDl", "\u{2556}"),
    ("boxDr", "\u{2553}"),
    ("boxH", "\u{2550}"),
    ("boxHD", "\u{2566}"),
    ("boxHU", "\u{2569}"),
    ("boxHd", "\u{2564}"),
    ("boxHu", "\u{2567}"),
    ("boxUL", "\u{255D}"),
    ("boxUR", "\u{255A}"),
    ("boxUl", "\u{255C}"),
    ("boxUr", "\u{2559}"),
    ("boxV", "\u{2551}"),
    ("boxVH", "\u{256C}"),
    ("boxVL", "\u{2563}"),
    ("boxVR", "\u{2560}"),
    ("boxVh", "\u{256B}"),
    ("boxVl", "\u{2562}"),
    ("boxVr", "\u{255F}"),
    ("boxbox", "\u{29C9}"),
    ("boxdL", "\u{2555}"),
    ("boxdR", "\u{2552}"),
    ("boxdl", "\u{2510}"),
    ("boxdr", "\u{250C}"),
    ("boxh", "\u{2500}"),
    ("boxhD", "\u{2565}"),
    ("boxhU", "\u{2568}"),
    ("boxhd", "\u{252C}"),
    ("boxhu", "\u{2534}"),
    ("boxuL", "\u{255B}"),
    ("boxuR", "\u{2558}"),
    ("boxul", "\u{2518}"),
    ("boxur", "\u{2514}"),
    ("boxv", "\u{2502}"),
    ("boxvH", "\u{256A}"),
    ("boxvL", "\u{2561}"),
    ("boxvR", "\u{255E}"),
    ("boxvh", "\u{253C}"),
    ("boxvl", "\u{2524}"),
    ("boxvr", "\u{251C}"),
    ("bprime", "\u{2035}"),
    ("breve", "\u{02D8}"),
    ("brvbar", "\u{00A6}"),
    ("bscr", "\u{1D4B7}"),
    ("bsemi", "\u{204F}"),
    ("bsim", "\u{223D}"),
    ("bsime", "\u{22CD}"),
    ("bsol", "\u{005C}"),
    ("bsol", "\u{29C5}"),
    ("bull", "\u{2022}"),
    ("bump", "\u{224E}"),
    ("bumpE", "\u{2AAE}"),
    ("bumpe", "\u{224F}"),
    ("cacute", "\u{0107}"),
    ("cap", "\u{2229}"),
    ("capand", "\u{2A44}"),
    ("capbrcup", "\u{2A49}"),
    ("capcap", "\u{2A4B}"),
    ("capcup", "\u{2A47}"),
    ("capdot", "\u{2A40}"),
    ("caret", "\u{2041}"),
    ("caron", "\u{02C7}"),
    ("ccaps", "\u{2A4D}"),
    ("ccaron", "\u{010D}"),
    ("ccedil", "\u{00E7}"),
    ("ccirc", "\u{0109}"),
    ("ccups", "\u{2A4C}"),
    ("ccupssm", "\u{2A50}"),
    ("cdot", "\u{010B}"),
    ("cedil", "\u{00B8}"),
    ("cemptyv", "\u{29B2}"),
    ("cent", "\u{00A2}"),
    ("cfr", "\u{1D520}"),
    ("chcy", "\u{0447}"),
    ("check", "\u{2713}"),
    ("chi", "\u{03C7}"),
    ("cir", "\u{25CB}"),
    ("cirE", "\u{29C3}"),
    ("circ", "\u{02C6}"),
    ("cire", "\u{2257}"),
    ("cirfnint", "\u{2A10}"),
    ("cirmid", "\u{2AEF}"),
    ("cirscir", "\u{29C2}"),
    ("clubs", "\u{2663}"),
    ("colon", "\u{003A}"),
    ("colone", "\u{2254}"),
    ("comma", "\u{002C}"),
    ("commat", "\u{0040}"),
    ("comp", "\u{2201}"),
    ("compfn", "\u{2218}"),
    ("cong", "\u{2245}"),
    ("congdot", "\u{2A6D}"),
    ("conint", "\u{222E}"),
    ("copf", "\u{1D554}"),
    ("coprod", "\u{2210}"),
    ("copy", "\u{00A9}"),
    ("copysr", "\u{2117}"),
    ("crarr", "\u{21B5}"),
    ("cross", "\u{2717}"),
    ("cscr", "\u{1D4B8}"),
    ("csu", "\u{2ACF}"),
    ("csube", "\u{2AD1}"),
    ("csup", "\u{2AD0}"),
    ("csupe", "\u{2AD2}"),
    ("ctdot", "\u{22EF}"),
    ("cudarrl", "\u{2938}"),
    ("cudarrr", "\u{2935}"),
    ("cuepr", "\u{22DE}"),
    ("cuesc", "\u{22DF}"),
    ("cularr", "\u{21B6}"),
    ("cularrp", "\u{293D}"),
    ("cup", "\u{222A}"),
    ("cupbrcap", "\u{2A48}"),
    ("cupcap", "\u{2A46}"),
    ("cupcup", "\u{2A4A}"),
    ("cupdot", "\u{228D}"),
    ("cupor", "\u{2A45}"),
    ("curarr", "\u{21B7}"),
    ("curarrm", "\u{293C}"),
    ("curren", "\u{00A4}"),
    ("cuvee", "\u{22CE}"),
    ("cuwed", "\u{22CF}"),
    ("cwconint", "\u{2232}"),
    ("cwint", "\u{2231}"),
    ("cylcty", "\u{232D}"),
    ("dArr", "\u{21D3}"),
    ("dHar", "\u{2965}"),
    ("dagger", "\u{2020}"),
    ("daleth", "\u{2138}"),
    ("darr", "\u{2193}"),
    ("dashv", "\u{22A3}"),
    ("dblac", "\u{02DD}"),
    ("dcaron", "\u{010F}"),
    ("dcy", "\u{0434}"),
    ("ddarr", "\u{21CA}"),
    ("deg", "\u{00B0}"),
    ("delta", "\u{03B4}"),
    ("demptyv", "\u{29B1}"),
    ("dfisht", "\u{297F}"),
    ("dfr", "\u{1D521}"),
    ("dharl", "\u{21C3}"),
    ("dharr", "\u{21C2}"),
    ("diam", "\u{22C4}"),
    ("diams", "\u{2666}"),
    ("disin", "\u{22F2}"),
    ("divide", "\u{00F7}"),
    ("divonx", "\u{22C7}"),
    ("djcy", "\u{0452}"),
    ("dlcorn", "\u{231E}"),
    ("dlcrop", "\u{230D}"),
    ("dollar", "\u{0024}"),
    ("dopf", "\u{1D555}"),
    ("dot", "\u{02D9}"),
    ("drcorn", "\u{231F}"),
    ("drcrop", "\u{230C}"),
    ("dscr", "\u{1D4B9}"),
    ("dscy", "\u{0455}"),
    ("dsol", "\u{29F6}"),
    ("dstrok", "\u{0111}"),
    ("dtdot", "\u{22F1}"),
    ("dtri", "\u{25BF}"),
    ("dtrif", "\u{25BE}"),
    ("duarr", "\u{21F5}"),
    ("duhar", "\u{296F}"),
    ("dwangle", "\u{29A6}"),
    ("dzcy", "\u{045F}"),
    ("dzigrarr", "\u{27FF}"),
    ("eDDot", "\u{2A77}"),
    ("eDot", "\u{2251}"),
    ("eacute", "\u{00E9}"),
    ("easter", "\u{2A6E}"),
    ("ecaron", "\u{011B}"),
    ("ecir", "\u{2256}"),
    ("ecirc", "\u{00EA}"),
    ("ecolon", "\u{2255}"),
    ("ecy", "\u{044D}"),
    ("edot", "\u{0117}"),
    ("efDot", "\u{2252}"),
    ("efr", "\u{1D522}"),
    ("eg", "\u{2A9A}"),
    ("egrave", "\u{00E8}"),
    ("egs", "\u{2A96}"),
    ("egsdot", "\u{2A98}"),
    ("el", "\u{2A99}"),
    ("elinters", "\u{23E7}"),
    ("ell", "\u{2113}"),
    ("els", "\u{2A95}"),
    ("elsdot", "\u{2A97}"),
    ("emacr", "\u{0113}"),
    ("empty", "\u{2205}"),
    ("emsp", "\u{2003}"),
    ("emsp13", "\u{2004}"),
    ("emsp14", "\u{2005}"),
    ("eng", "\u{014B}"),
    ("ensp", "\u{2002}"),
    ("eogon", "\u{0119}"),
    ("eopf", "\u{1D556}"),
    ("epar", "\u{22D5}"),
    ("eparsl", "\u{29E3}"),
    ("eplus", "\u{2A71}"),
    ("epsi", "\u{03F5}"),
    ("epsiv", "\u{03B5}"),
    ("equals", "\u{003D}"),
    ("equest", "\u{225F}"),
    ("equiv", "\u{2261}"),
    ("equivDD", "\u{2A78}"),
    ("eqvparsl", "\u{29E5}"),
    ("erDot", "\u{2253}"),
    ("erarr", "\u{2971}"),
    ("escr", "\u{212F}"),
    ("esdot", "\u{2250}"),
    ("esim", "\u{2242}"),
    ("eta", "\u{03B7}"),
    ("eth", "\u{00F0}"),
    ("euml", "\u{00EB}"),
    ("euro", "\u{20AC}"),
    ("excl", "\u{0021}"),
    ("exist", "\u{2203}"),
    ("fcy", "\u{0444}"),
    ("female", "\u{2640}"),
    ("ffilig", "\u{FB03}"),
    ("fflig", "\u{FB00}"),
    ("ffllig", "\u{FB04}"),
    ("ffr", "\u{1D523}"),
    ("filig", "\u{FB01}"),
    ("flat", "\u{266D}"),
    ("fllig", "\u{FB02}"),
    ("fltns", "\u{25B1}"),
    ("fnof", "\u{0192}"),
    ("fopf", "\u{1D557}"),
    ("forall", "\u{2200}"),
    ("fork", "\u{22D4}"),
    ("forkv", "\u{2AD9}"),
    ("fpartint", "\u{2A0D}"),
    ("frac12", "\u{00BD}"),
    ("frac13", "\u{2153}"),
    ("frac14", "\u{00BC}"),
    ("frac15", "\u{2155}"),
    ("frac16", "\u{2159}"),
    ("frac18", "\u{215B}"),
    ("frac23", "\u{2154}"),
    ("frac25", "\u{2156}"),
    ("frac34", "\u{00BE}"),
    ("frac35", "\u{2157}"),
    ("frac38", "\u{215C}"),
    ("frac45", "\u{2158}"),
    ("frac56", "\u{215A}"),
    ("frac58", "\u{215D}"),
    ("frac78", "\u{215E}"),
    ("frasl", "\u{2044}"),
    ("frown", "\u{2322}"),
    ("fscr", "\u{1D4BB}"),
    ("gE", "\u{2267}"),
    ("gEl", "\u{2A8C}"),
    ("gacute", "\u{01F5}"),
    ("gamma", "\u{03B3}"),
    ("gammad", "\u{03DD}"),
    ("gap", "\u{2A86}"),
    ("gbreve", "\u{011F}"),
    ("gcirc", "\u{011D}"),
    ("gcy", "\u{0433}"),
    ("gdot", "\u{0121}"),
    ("ge", "\u{2265}"),
    ("gel", "\u{22DB}"),
    ("ges", "\u{2A7E}"),
    ("gescc", "\u{2AA9}"),
    ("gesdot", "\u{2A80}"),
    ("gesdoto", "\u{2A82}"),
    ("gesdotol", "\u{2A84}"),
    ("gesles", "\u{2A94}"),
    ("gfr", "\u{1D524}"),
    ("gimel", "\u{2137}"),
    ("gjcy", "\u{0453}"),
    ("gl", "\u{2277}"),
    ("glE", "\u{2A92}"),
    ("gla", "\u{2AA5}"),
    ("glj", "\u{2AA4}"),
    ("gnE", "\u{2269}"),
    ("gnap", "\u{2A8A}"),
    ("gne", "\u{2A88}"),
    ("gnsim", "\u{22E7}"),
    ("gopf", "\u{1D558}"),
    ("grave", "\u{0060}"),
    ("gscr", "\u{210A}"),
    ("gsim", "\u{2273}"),
    ("gsime", "\u{2A8E}"),
    ("gsiml", "\u{2A90}"),
    ("gt", "\u{003E}"),
    ("gtcc", "\u{2AA7}"),
    ("gtcir", "\u{2A7A}"),
    ("gtdot", "\u{22D7}"),
    ("gtlPar", "\u{2995}"),
    ("gtquest", "\u{2A7C}"),
    ("gtrarr", "\u{2978}"),
    ("hArr", "\u{21D4}"),
    ("hairsp", "\u{200A}"),
    ("hamilt", "\u{210B}"),
    ("hardcy", "\u{044A}"),
    ("harr", "\u{2194}"),
    ("harrcir", "\u{2948}"),
    ("harrw", "\u{21AD}"),
    ("hcirc", "\u{0125}"),
    ("hearts", "\u{2665}"),
    ("hellip", "\u{2026}"),
    ("hercon", "\u{22B9}"),
    ("hfr", "\u{1D525}"),
    ("hoarr", "\u{21FF}"),
    ("homtht", "\u{223B}"),
    ("hopf", "\u{1D559}"),
    ("horbar", "\u{2015}"),
    ("hscr", "\u{1D4BD}"),
    ("hstrok", "\u{0127}"),
    ("hybull", "\u{2043}"),
    ("hyphen", "\u{2010}"),
    ("iacute", "\u{00ED}"),
    ("icirc", "\u{00EE}"),
    ("icy", "\u{0438}"),
    ("iecy", "\u{0435}"),
    ("iexcl", "\u{00A1}"),
    ("ifr", "\u{1D526}"),
    ("igrave", "\u{00EC}"),
    ("iinfin", "\u{29DC}"),
    ("iiota", "\u{2129}"),
    ("ijlig", "\u{0133}"),
    ("imacr", "\u{012B}"),
    ("image", "\u{2111}"),
    ("imath", "\u{0131}"),
    ("imof", "\u{22B7}"),
    ("imped", "\u{01B5}"),
    ("incare", "\u{2105}"),
    ("infin", "\u{221E}"),
    ("infintie", "\u{29DD}"),
    ("int", "\u{222B}"),
    ("intcal", "\u{22BA}"),
    ("integers", "\u{2124}"),
    ("intlarhk", "\u{2A17}"),
    ("iocy", "\u{0451}"),
    ("iogon", "\u{012F}"),
    ("iopf", "\u{1D55A}"),
    ("iota", "\u{03B9}"),
    ("iprod", "\u{2A3C}"),
    ("iquest", "\u{00BF}"),
    ("iscr", "\u{1D4BE}"),
    ("isin", "\u{2208}"),
    ("isinE", "\u{22F9}"),
    ("isindot", "\u{22F5}"),
    ("isins", "\u{22F4}"),
    ("isinsv", "\u{22F3}"),
    ("itilde", "\u{0129}"),
    ("iukcy", "\u{0456}"),
    ("iuml", "\u{00EF}"),
    ("jcirc", "\u{0135}"),
    ("jcy", "\u{0439}"),
    ("jfr", "\u{1D527}"),
    ("jmath", "\u{0237}"),
    ("jopf", "\u{1D55B}"),
    ("jscr", "\u{1D4BF}"),
    ("jsercy", "\u{0458}"),
    ("jukcy", "\u{0454}"),
    ("kappa", "\u{03BA}"),
    ("kappav", "\u{03F0}"),
    ("kcedil", "\u{0137}"),
    ("kcy", "\u{043A}"),
    ("kfr", "\u{1D528}"),
    ("kgreen", "\u{0138}"),
    ("khcy", "\u{0445}"),
    ("kjcy", "\u{045C}"),
    ("kopf", "\u{1D55C}"),
    ("kscr", "\u{1D4C0}"),
    ("lAarr", "\u{21DA}"),
    ("lArr", "\u{21D0}"),
    ("lAtail", "\u{291B}"),
    ("lBarr", "\u{290E}"),
    ("lE", "\u{2266}"),
    ("lEg", "\u{2A8B}"),
    ("lHar", "\u{2962}"),
    ("lacute", "\u{013A}"),
    ("laemptyv", "\u{29B4}"),
    ("lambda", "\u{03BB}"),
    ("lang", "\u{27E8}"),
    ("langd", "\u{2991}"),
    ("lap", "\u{2A85}"),
    ("laquo", "\u{00AB}"),
    ("larr", "\u{2190}"),
    ("larr", "\u{21E4}"),
    ("larrbfs", "\u{291F}"),
    ("larrfs", "\u{291D}"),
    ("larrhk", "\u{21A9}"),
    ("larrlp", "\u{21AB}"),
    ("larrpl", "\u{2939}"),
    ("larrsim", "\u{2973}"),
    ("larrtl", "\u{21A2}"),
    ("lat", "\u{2AAB}"),
    ("latail", "\u{2919}"),
    ("late", "\u{2AAD}"),
    ("lbarr", "\u{290C}"),
    ("lbbrk", "\u{2772}"),
    ("lbrke", "\u{298B}"),
    ("lbrksld", "\u{298F}"),
    ("lbrkslu", "\u{298D}"),
    ("lcaron", "\u{013E}"),
    ("lcedil", "\u{013C}"),
    ("lceil", "\u{2308}"),
    ("lcu", "\u{007B}"),
    ("lcy", "\u{043B}"),
    ("ldca", "\u{2936}"),
    ("ldquo", "\u{201C}"),
    ("ldquor", "\u{201E}"),
    ("ldrdhar", "\u{2967}"),
    ("ldrushar", "\u{294B}"),
    ("ldsh", "\u{21B2}"),
    ("le", "\u{2264}"),
    ("leg", "\u{22DA}"),
    ("les", "\u{2A7D}"),
    ("lescc", "\u{2AA8}"),
    ("lesdot", "\u{2A7F}"),
    ("lesdoto", "\u{2A81}"),
    ("lesdotor", "\u{2A83}"),
    ("lesges", "\u{2A93}"),
    ("lfisht", "\u{297C}"),
    ("lfloor", "\u{230A}"),
    ("lfr", "\u{1D529}"),
    ("lg", "\u{2276}"),
    ("lgE", "\u{2A91}"),
    ("lhard", "\u{21BD}"),
    ("lharu", "\u{21BC}"),
    ("lharul", "\u{296A}"),
    ("lhblk", "\u{2584}"),
    ("ljcy", "\u{0459}"),
    ("llarr", "\u{21C7}"),
    ("llhard", "\u{296B}"),
    ("lltri", "\u{25FA}"),
    ("lmidot", "\u{0140}"),
    ("lmoust", "\u{23B0}"),
    ("lnE", "\u{2268}"),
    ("lnap", "\u{2A89}"),
    ("lne", "\u{2A87}"),
    ("lnsim", "\u{22E6}"),
    ("loang", "\u{27EC}"),
    ("loarr", "\u{21FD}"),
    ("lobrk", "\u{27E6}"),
    ("lopar", "\u{2985}"),
    ("lopf", "\u{1D55D}"),
    ("loplus", "\u{2A2D}"),
    ("lotimes", "\u{2A34}"),
    ("lowast", "\u{2217}"),
    ("lowbar", "\u{005F}"),
    ("loz", "\u{25CA}"),
    ("lozf", "\u{29EB}"),
    ("lpar", "\u{0028}"),
    ("lparlt", "\u{2993}"),
    ("lrarr", "\u{21C6}"),
    ("lrhar", "\u{21CB}"),
    ("lrhard", "\u{296D}"),
    ("lrm", "\u{200E}"),
    ("lrtri", "\u{22BF}"),
    ("lsaquo", "\u{2039}"),
    ("lscr", "\u{1D4C1}"),
    ("lsh", "\u{21B0}"),
    ("lsim", "\u{2272}"),
    ("lsime", "\u{2A8D}"),
    ("lsimg", "\u{2A8F}"),
    ("lsq", "\u{005B}"),
    ("lsquo", "\u{2018}"),
    ("lsquor", "\u{201A}"),
    ("lstrok", "\u{0142}"),
    ("lt", "\u{003C}"),
    ("ltcc", "\u{2AA6}"),
    ("ltcir", "\u{2A79}"),
    ("ltdot", "\u{22D6}"),
    ("lthree", "\u{22CB}"),
    ("ltimes", "\u{22C9}"),
    ("ltlarr", "\u{2976}"),
    ("ltquest", "\u{2A7B}"),
    ("ltrPar", "\u{2996}"),
    ("ltri", "\u{25C3}"),
    ("ltrie", "\u{22B4}"),
    ("ltrif", "\u{25C2}"),
    ("lurdshar", "\u{294A}"),
    ("luruhar", "\u{2966}"),
    ("mDDot", "\u{223A}"),
    ("macr", "\u{00AF}"),
    ("male", "\u{2642}"),
    ("malt", "\u{2720}"),
    ("map", "\u{21A6}"),
    ("marker", "\u{25AE}"),
    ("mcomma", "\u{2A29}"),
    ("mcy", "\u{043C}"),
    ("mdash", "\u{2014}"),
    ("mfr", "\u{1D52A}"),
    ("mho", "\u{2127}"),
    ("micro", "\u{00B5}"),
    ("mid", "\u{2223}"),
    ("midcir", "\u{2AF0}"),
    ("middot", "\u{00B7}"),
    ("minus", "\u{2212}"),
    ("minus", "\u{229F}"),
    ("minusd", "\u{2238}"),
    ("minusdu", "\u{2A2A}"),
    ("mlcp", "\u{2ADB}"),
    ("mnplus", "\u{2213}"),
    ("models", "\u{22A7}"),
    ("mopf", "\u{1D55E}"),
    ("mscr", "\u{1D4C2}"),
    ("mu", "\u{03BC}"),
    ("mumap", "\u{22B8}"),
    ("nVDash", "\u{22AF}"),
    ("nVdash", "\u{22AE}"),
    ("nabla", "\u{2207}"),
    ("nacute", "\u{0144}"),
    ("nap", "\u{2249}"),
    ("napos", "\u{0149}"),
    ("natur", "\u{266E}"),
    ("nbsp", " "),
    ("ncap", "\u{2A43}"),
    ("ncaron", "\u{0148}"),
    ("ncedil", "\u{0146}"),
    ("ncong", "\u{2247}"),
    ("ncup", "\u{2A42}"),
    ("ncy", "\u{043D}"),
    ("ndash", "\u{2013}"),
    ("ne", "\u{2260}"),
    ("neArr", "\u{21D7}"),
    ("nearhk", "\u{2924}"),
    ("nearr", "\u{2197}"),
    ("nequiv", "\u{2262}"),
    ("nesear", "\u{2928}"),
    ("nexist", "\u{2204}"),
    ("nfr", "\u{1D52B}"),
    ("nge", "\u{2271}"),
    ("ngsim", "\u{2275}"),
    ("ngt", "\u{226F}"),
    ("nhArr", "\u{21CE}"),
    ("nharr", "\u{21AE}"),
    ("nhpar", "\u{2AF2}"),
    ("nis", "\u{22FC}"),
    ("nisd", "\u{22FA}"),
    ("niv", "\u{220B}"),
    ("njcy", "\u{045A}"),
    ("nlArr", "\u{21CD}"),
    ("nlarr", "\u{219A}"),
    ("nldr", "\u{2025}"),
    ("nle", "\u{2270}"),
    ("nlsim", "\u{2274}"),
    ("nlt", "\u{226E}"),
    ("nltri", "\u{22EA}"),
    ("nltrie", "\u{22EC}"),
    ("nmid", "\u{2224}"),
    ("nopf", "\u{1D55F}"),
    ("not", "\u{00AC}"),
    ("notin", "\u{2209}"),
    ("notinv", "\u{22F7}"),
    ("notinvc", "\u{22F6}"),
    ("notni", "\u{220C}"),
    ("notniv", "\u{22FE}"),
    ("notnivc", "\u{22FD}"),
    ("npar", "\u{2226}"),
    ("npolint", "\u{2A14}"),
    ("npr", "\u{2280}"),
    ("nprcue", "\u{22E0}"),
    ("nrArr", "\u{21CF}"),
    ("nrarr", "\u{219B}"),
    ("nrtri", "\u{22EB}"),
    ("nrtrie", "\u{22ED}"),
    ("nsc", "\u{2281}"),
    ("nsccue", "\u{22E1}"),
    ("nscr", "\u{1D4C3}"),
    ("nsim", "\u{2241}"),
    ("nsime", "\u{2244}"),
    ("nsqsube", "\u{22E2}"),
    ("nsqsupe", "\u{22E3}"),
    ("nsu", "\u{2284}"),
    ("nsube", "\u{2288}"),
    ("nsup", "\u{2285}"),
    ("nsupe", "\u{2289}"),
    ("ntgl", "\u{2279}"),
    ("ntilde", "\u{00F1}"),
    ("ntlg", "\u{2278}"),
    ("nu", "\u{03BD}"),
    ("num", "\u{0023}"),
    ("numero", "\u{2116}"),
    ("numsp", "\u{2007}"),
    ("nvDash", "\u{22AD}"),
    ("nvHarr", "\u{2904}"),
    ("nvdash", "\u{22AC}"),
    ("nvinfin", "\u{29DE}"),
    ("nvlArr", "\u{2902}"),
    ("nvrArr", "\u{2903}"),
    ("nwArr", "\u{21D6}"),
    ("nwarhk", "\u{2923}"),
    ("nwarr", "\u{2196}"),
    ("nwnear", "\u{2927}"),
    ("oS", "\u{24C8}"),
    ("oacute", "\u{00F3}"),
    ("oast", "\u{229B}"),
    ("ocir", "\u{229A}"),
    ("ocirc", "\u{00F4}"),
    ("ocy", "\u{043E}"),
    ("odash", "\u{229D}"),
    ("odblac", "\u{0151}"),
    ("odiv", "\u{2A38}"),
    ("odot", "\u{2299}"),
    ("odsold", "\u{29BC}"),
    ("oelig", "\u{0153}"),
    ("ofcir", "\u{29BF}"),
    ("ofr", "\u{1D52C}"),
    ("ogon", "\u{02DB}"),
    ("ograve", "\u{00F2}"),
    ("ogt", "\u{29C1}"),
    ("ohbar", "\u{29B5}"),
    ("ohm", "\u{2126}"),
    ("olarr", "\u{21BA}"),
    ("olcir", "\u{29BE}"),
    ("olcross", "\u{29BB}"),
    ("oline", "\u{203E}"),
    ("olt", "\u{29C0}"),
    ("omacr", "\u{014D}"),
    ("omega", "\u{03C9}"),
    ("omicron", "\u{03BF}"),
    ("omid", "\u{29B6}"),
    ("ominus", "\u{2296}"),
    ("oopf", "\u{1D560}"),
    ("opar", "\u{29B7}"),
    ("operp", "\u{29B9}"),
    ("oplus", "\u{2295}"),
    ("or", "\u{2228}"),
    ("orarr", "\u{21BB}"),
    ("ord", "\u{2A5D}"),
    ("order", "\u{2134}"),
    ("ordf", "\u{00AA}"),
    ("ordm", "\u{00BA}"),
    ("origof", "\u{22B6}"),
    ("oror", "\u{2A56}"),
    ("orslope", "\u{2A57}"),
    ("orv", "\u{2A5B}"),
    ("oslash", "\u{00F8}"),
    ("osol", "\u{2298}"),
    ("otilde", "\u{00F5}"),
    ("otimes", "\u{2297}"),
    ("otimesas", "\u{2A36}"),
    ("ouml", "\u{00F6}"),
    ("ovbar", "\u{233D}"),
    ("par", "\u{2225}"),
    ("para", "\u{00B6}"),
    ("parsim", "\u{2AF3}"),
    ("parsl", "\u{2AFD}"),
    ("part", "\u{2202}"),
    ("pcy", "\u{043F}"),
    ("percnt", "\u{0025}"),
    ("period", "\u{002E}"),
    ("permil", "\u{2030}"),
    ("pertenk", "\u{2031}"),
    ("pfr", "\u{1D52D}"),
    ("phi", "\u{03C6}"),
    ("phmmat", "\u{2133}"),
    ("phone", "\u{260E}"),
    ("pi", "\u{03C0}"),
    ("piv", "\u{03D6}"),
    ("planck", "\u{210F}"),
    ("planckh", "\u{210E}"),
    ("plus", "\u{002B}"),
    ("plusacir", "\u{2A23}"),
    ("plus", "\u{229E}"),
    ("pluscir", "\u{2A22}"),
    ("plusdo", "\u{2214}"),
    ("plusdu", "\u{2A25}"),
    ("pluse", "\u{2A72}"),
    ("plusmn", "\u{00B1}"),
    ("plussim", "\u{2A26}"),
    ("plustwo", "\u{2A27}"),
    ("pointint", "\u{2A15}"),
    ("popf", "\u{1D561}"),
    ("pound", "\u{00A3}"),
    ("pr", "\u{227A}"),
    ("prE", "\u{2AB3}"),
    ("prap", "\u{2AB7}"),
    ("prcue", "\u{227C}"),
    ("pre", "\u{2AAF}"),
    ("prime", "\u{2032}"),
    ("prnE", "\u{2AB5}"),
    ("prnap", "\u{2AB9}"),
    ("prnsim", "\u{22E8}"),
    ("prod", "\u{220F}"),
    ("profalar", "\u{232E}"),
    ("profline", "\u{2312}"),
    ("profsurf", "\u{2313}"),
    ("prop", "\u{221D}"),
    ("prsim", "\u{227E}"),
    ("prurel", "\u{22B0}"),
    ("pscr", "\u{1D4C5}"),
    ("psi", "\u{03C8}"),
    ("puncsp", "\u{2008}"),
    ("qfr", "\u{1D52E}"),
    ("qint", "\u{2A0C}"),
    ("qopf", "\u{1D562}"),
    ("qprime", "\u{2057}"),
    ("qscr", "\u{1D4C6}"),
    ("quaternions", "\u{210D}"),
    ("quatint", "\u{2A16}"),
    ("quest", "\u{003F}"),
    ("quot", "\u{0022}"),
    ("rAarr", "\u{21DB}"),
    ("rArr", "\u{21D2}"),
    ("rAtail", "\u{291C}"),
    ("rBarr", "\u{290F}"),
    ("rHar", "\u{2964}"),
    ("race", "\u{29DA}"),
    ("racute", "\u{0155}"),
    ("radic", "\u{221A}"),
    ("raemptyv", "\u{29B3}"),
    ("rang", "\u{27E9}"),
    ("rangd", "\u{2992}"),
    ("range", "\u{29A5}"),
    ("raquo", "\u{00BB}"),
    ("rarr", "\u{2192}"),
    ("rarrap", "\u{2975}"),
    ("rarr", "\u{21E5}"),
    ("rarrbfs", "\u{2920}"),
    ("rarrc", "\u{2933}"),
    ("rarrfs", "\u{291E}"),
    ("rarrhk", "\u{21AA}"),
    ("rarrlp", "\u{21AC}"),
    ("rarrpl", "\u{2945}"),
    ("rarrsim", "\u{2974}"),
    ("rarrtl", "\u{21A3}"),
    ("rarrw", "\u{219D}"),
    ("ratail", "\u{291A}"),
    ("ratio", "\u{2236}"),
    ("rationals", "\u{211A}"),
    ("rbarr", "\u{290D}"),
    ("rbbrk", "\u{2773}"),
    ("rbrke", "\u{298C}"),
    ("rbrksld", "\u{298E}"),
    ("rbrkslu", "\u{2990}"),
    ("rcaron", "\u{0159}"),
    ("rcedil", "\u{0157}"),
    ("rceil", "\u{2309}"),
    ("rcu", "\u{007D}"),
    ("rcy", "\u{0440}"),
    ("rdca", "\u{2937}"),
    ("rdldhar", "\u{2969}"),
    ("rdquo", "\u{201D}"),
    ("rdsh", "\u{21B3}"),
    ("real", "\u{211C}"),
    ("reals", "\u{211D}"),
    ("rect", "\u{25AD}"),
    ("reg", "\u{00AE}"),
    ("rfisht", "\u{297D}"),
    ("rfloor", "\u{230B}"),
    ("rfr", "\u{1D52F}"),
    ("rhard", "\u{21C1}"),
    ("rharu", "\u{21C0}"),
    ("rharul", "\u{296C}"),
    ("rho", "\u{03C1}"),
    ("rhov", "\u{03F1}"),
    ("ring", "\u{02DA}"),
    ("rlarr", "\u{21C4}"),
    ("rlhar", "\u{21CC}"),
    ("rlm", "\u{200F}"),
    ("rmoust", "\u{23B1}"),
    ("rnmid", "\u{2AEE}"),
    ("roang", "\u{27ED}"),
    ("roarr", "\u{21FE}"),
    ("robrk", "\u{27E7}"),
    ("ropar", "\u{2986}"),
    ("ropf", "\u{1D563}"),
    ("roplus", "\u{2A2E}"),
    ("rotimes", "\u{2A35}"),
    ("rpar", "\u{0029}"),
    ("rpargt", "\u{2994}"),
    ("rppolint", "\u{2A12}"),
    ("rrarr", "\u{21C9}"),
    ("rsaquo", "\u{203A}"),
    ("rscr", "\u{1D4C7}"),
    ("rsh", "\u{21B1}"),
    ("rsq", "\u{005D}"),
    ("rsquo", "\u{2019}"),
    ("rthree", "\u{22CC}"),
    ("rtimes", "\u{22CA}"),
    ("rtri", "\u{25B9}"),
    ("rtrie", "\u{22B5}"),
    ("rtrif", "\u{25B8}"),
    ("rtriltri", "\u{29CE}"),
    ("ruluhar", "\u{2968}"),
    ("rx", "\u{211E}"),
    ("sacute", "\u{015B}"),
    ("sc", "\u{227B}"),
    ("scE", "\u{2AB4}"),
    ("scap", "\u{2AB8}"),
    ("scaron", "\u{0161}"),
    ("sccue", "\u{227D}"),
    ("sce", "\u{2AB0}"),
    ("scedil", "\u{015F}"),
    ("scirc", "\u{015D}"),
    ("scnE", "\u{2AB6}"),
    ("scnap", "\u{2ABA}"),
    ("scnsim", "\u{22E9}"),
    ("scpolint", "\u{2A13}"),
    ("scsim", "\u{227F}"),
    ("scy", "\u{0441}"),
    ("sdot", "\u{22C5}"),
    ("sdot", "\u{22A1}"),
    ("sdote", "\u{2A66}"),
    ("seArr", "\u{21D8}"),
    ("searhk", "\u{2925}"),
    ("searr", "\u{2198}"),
    ("sect", "\u{00A7}"),
    ("semi", "\u{003B}"),
    ("seswar", "\u{2929}"),
    ("setmn", "\u{2216}"),
    ("sext", "\u{2736}"),
    ("sfr", "\u{1D530}"),
    ("sharp", "\u{266F}"),
    ("shchcy", "\u{0449}"),
    ("shcy", "\u{0448}"),
    ("shy", "\u{00AD}"),
    ("sigma", "\u{03C3}"),
    ("sigmav", "\u{03C2}"),
    ("sim", "\u{223C}"),
    ("simdot", "\u{2A6A}"),
    ("sime", "\u{2243}"),
    ("simg", "\u{2A9E}"),
    ("simgE", "\u{2AA0}"),
    ("siml", "\u{2A9D}"),
    ("simlE", "\u{2A9F}"),
    ("simne", "\u{2246}"),
    ("simplus", "\u{2A24}"),
    ("simrarr", "\u{2972}"),
    ("smashp", "\u{2A33}"),
    ("smeparsl", "\u{29E4}"),
    ("smile", "\u{2323}"),
    ("smt", "\u{2AAA}"),
    ("smte", "\u{2AAC}"),
    ("softcy", "\u{044C}"),
    ("sol", "\u{002F}"),
    ("sol", "\u{29C4}"),
    ("solbar", "\u{233F}"),
    ("sopf", "\u{1D564}"),
    ("spades", "\u{2660}"),
    ("sqcap", "\u{2293}"),
    ("sqcup", "\u{2294}"),
    ("sqsu", "\u{228F}"),
    ("sqsube", "\u{2291}"),
    ("sqsup", "\u{2290}"),
    ("sqsupe", "\u{2292}"),
    ("squ", "\u{25A1}"),
    ("squf", "\u{25AA}"),
    ("sscr", "\u{1D4C8}"),
    ("sstarf", "\u{22C6}"),
    ("star", "\u{2606}"),
    ("starf", "\u{2605}"),
    ("straightphi", "\u{03D5}"),
    ("su", "\u{2282}"),
    ("subE", "\u{2AC5}"),
    ("subdot", "\u{2ABD}"),
    ("sube", "\u{2286}"),
    ("subedot", "\u{2AC3}"),
    ("submult", "\u{2AC1}"),
    ("subnE", "\u{2ACB}"),
    ("subne", "\u{228A}"),
    ("subplus", "\u{2ABF}"),
    ("subrarr", "\u{2979}"),
    ("subsim", "\u{2AC7}"),
    ("subsu", "\u{2AD5}"),
    ("subsup", "\u{2AD3}"),
    ("sum", "\u{2211}"),
    ("sung", "\u{266A}"),
    ("sup", "\u{2283}"),
    ("sup1", "\u{00B9}"),
    ("sup2", "\u{00B2}"),
    ("sup3", "\u{00B3}"),
    ("supE", "\u{2AC6}"),
    ("supdot", "\u{2ABE}"),
    ("supdsu", "\u{2AD8}"),
    ("supe", "\u{2287}"),
    ("supedot", "\u{2AC4}"),
    ("suphsu", "\u{2AD7}"),
    ("suplarr", "\u{297B}"),
    ("supmult", "\u{2AC2}"),
    ("supnE", "\u{2ACC}"),
    ("supne", "\u{228B}"),
    ("supplus", "\u{2AC0}"),
    ("supsim", "\u{2AC8}"),
    ("supsu", "\u{2AD4}"),
    ("supsup", "\u{2AD6}"),
    ("swArr", "\u{21D9}"),
    ("swarhk", "\u{2926}"),
    ("swarr", "\u{2199}"),
    ("swnwar", "\u{292A}"),
    ("szlig", "\u{00DF}"),
    ("target", "\u{2316}"),
    ("tau", "\u{03C4}"),
    ("tbrk", "\u{23B4}"),
    ("tcaron", "\u{0165}"),
    ("tcedil", "\u{0163}"),
    ("tcy", "\u{0442}"),
    ("tdot", "\u{20DB}"),
    ("telrec", "\u{2315}"),
    ("tfr", "\u{1D531}"),
    ("there4", "\u{2234}"),
    ("theta", "\u{03B8}"),
    ("thetav", "\u{03D1}"),
    ("thinsp", "\u{2009}"),
    ("thorn", "\u{00FE}"),
    ("tilde", "\u{02DC}"),
    ("times", "\u{00D7}"),
    ("times", "\u{22A0}"),
    ("timesbar", "\u{2A31}"),
    ("timesd", "\u{2A30}"),
    ("tint", "\u{222D}"),
    ("top", "\u{22A4}"),
    ("topbot", "\u{2336}"),
    ("topcir", "\u{2AF1}"),
    ("topf", "\u{1D565}"),
    ("topfork", "\u{2ADA}"),
    ("tprime", "\u{2034}"),
    ("trade", "\u{2122}"),
    ("tridot", "\u{25EC}"),
    ("trie", "\u{225C}"),
    ("triminus", "\u{2A3A}"),
    ("triplus", "\u{2A39}"),
    ("tris", "\u{29CD}"),
    ("tritime", "\u{2A3B}"),
    ("trpezium", "\u{23E2}"),
    ("tscr", "\u{1D4C9}"),
    ("tscy", "\u{0446}"),
    ("tshcy", "\u{045B}"),
    ("tstrok", "\u{0167}"),
    ("twixt", "\u{226C}"),
    ("uArr", "\u{21D1}"),
    ("uHar", "\u{2963}"),
    ("uacute", "\u{00FA}"),
    ("uarr", "\u{2191}"),
    ("ubrcy", "\u{045E}"),
    ("ubreve", "\u{016D}"),
    ("ucirc", "\u{00FB}"),
    ("ucy", "\u{0443}"),
    ("udarr", "\u{21C5}"),
    ("udblac", "\u{0171}"),
    ("udhar", "\u{296E}"),
    ("ufisht", "\u{297E}"),
    ("ufr", "\u{1D532}"),
    ("ugrave", "\u{00F9}"),
    ("uharl", "\u{21BF}"),
    ("uharr", "\u{21BE}"),
    ("uhblk", "\u{2580}"),
    ("ulcorn", "\u{231C}"),
    ("ulcrop", "\u{230F}"),
    ("ultri", "\u{25F8}"),
    ("umacr", "\u{016B}"),
    ("uogon", "\u{0173}"),
    ("uopf", "\u{1D566}"),
    ("uplus", "\u{228E}"),
    ("upsi", "\u{03C5}"),
    ("urcorn", "\u{231D}"),
    ("urcrop", "\u{230E}"),
    ("uring", "\u{016F}"),
    ("urtri", "\u{25F9}"),
    ("uscr", "\u{1D4CA}"),
    ("utdot", "\u{22F0}"),
    ("utilde", "\u{0169}"),
    ("utri", "\u{25B5}"),
    ("utrif", "\u{25B4}"),
    ("uuarr", "\u{21C8}"),
    ("uuml", "\u{00FC}"),
    ("uwangle", "\u{29A7}"),
    ("vArr", "\u{21D5}"),
    ("vBar", "\u{2AE8}"),
    ("vBarv", "\u{2AE9}"),
    ("vDash", "\u{22A8}"),
    ("vangrt", "\u{299C}"),
    ("varr", "\u{2195}"),
    ("vcy", "\u{0432}"),
    ("vdash", "\u{22A2}"),
    ("veebar", "\u{22BB}"),
    ("veeeq", "\u{225A}"),
    ("vellip", "\u{22EE}"),
    ("verbar", "\u{007C}"),
    ("vfr", "\u{1D533}"),
    ("vltri", "\u{22B2}"),
    ("vopf", "\u{1D567}"),
    ("vrtri", "\u{22B3}"),
    ("vscr", "\u{1D4CB}"),
    ("vzigzag", "\u{299A}"),
    ("wcirc", "\u{0175}"),
    ("wedbar", "\u{2A5F}"),
    ("wedgeq", "\u{2259}"),
    ("weierp", "\u{2118}"),
    ("wfr", "\u{1D534}"),
    ("wopf", "\u{1D568}"),
    ("wreath", "\u{2240}"),
    ("wscr", "\u{1D4CC}"),
    ("xcap", "\u{22C2}"),
    ("xcirc", "\u{25EF}"),
    ("xcup", "\u{22C3}"),
    ("xdtri", "\u{25BD}"),
    ("xfr", "\u{1D535}"),
    ("xhArr", "\u{27FA}"),
    ("xharr", "\u{27F7}"),
    ("xi", "\u{03BE}"),
    ("xlArr", "\u{27F8}"),
    ("xlarr", "\u{27F5}"),
    ("xmap", "\u{27FC}"),
    ("xnis", "\u{22FB}"),
    ("xodot", "\u{2A00}"),
    ("xopf", "\u{1D569}"),
    ("xoplus", "\u{2A01}"),
    ("xotime", "\u{2A02}"),
    ("xrArr", "\u{27F9}"),
    ("xrarr", "\u{27F6}"),
    ("xscr", "\u{1D4CD}"),
    ("xsqcup", "\u{2A06}"),
    ("xuplus", "\u{2A04}"),
    ("xutri", "\u{25B3}"),
    ("xvee", "\u{22C1}"),
    ("xwedge", "\u{22C0}"),
    ("yacute", "\u{00FD}"),
    ("yacy", "\u{044F}"),
    ("ycirc", "\u{0177}"),
    ("ycy", "\u{044B}"),
    ("yen", "\u{00A5}"),
    ("yfr", "\u{1D536}"),
    ("yicy", "\u{0457}"),
    ("yopf", "\u{1D56A}"),
    ("yscr", "\u{1D4CE}"),
    ("yucy", "\u{044E}"),
    ("yuml", "\u{00FF}"),
    ("zacute", "\u{017A}"),
    ("zcaron", "\u{017E}"),
    ("zcy", "\u{0437}"),
    ("zdot", "\u{017C}"),
    ("zeta", "\u{03B6}"),
    ("zfr", "\u{1D537}"),
    ("zhcy", "\u{0436}"),
    ("zigrarr", "\u{21DD}"),
    ("zopf", "\u{1D56B}"),
    ("zscr", "\u{1D4CF}"),
    ("zwj", "\u{200D}"),
    ("zwnj", "\u{200C}"),
];

/// The text of the first entry from index `from` on whose name is `name`.
pub open spec fn entity_text_from(name: Seq<char>, from: int) -> Option<Seq<char>>
    decreases HTML_ENTITIES_COUNT - from,
{
    if from < 0 || from >= HTML_ENTITIES_COUNT {
        None
    } else if HTML_ENTITIES_TABLE@[from].0@ == name {
        Some(HTML_ENTITIES_TABLE@[from].1@)
    } else {
        entity_text_from(name, from + 1)
    }
}

/// The text that the reference named `name` stands for, if the table has it.
pub open spec fn entity_text(name: Seq<char>) -> Option<Seq<char>> {
    entity_text_from(name, 0)
}

/// Looks a named character reference up in the table.
pub fn find_entity(name: &str) -> (found: Option<&'static str>)
    ensures
        match found {
            Some(text) => entity_text(name@) == Some(text@),
            None => entity_text(name@) is None,
        },
{
    let mut i: usize = 0;
    while i < HTML_ENTITIES_COUNT
        invariant
            i <= HTML_ENTITIES_COUNT,
            entity_text_from(name@, i as int) == entity_text(name@),
        decreases HTML_ENTITIES_COUNT - i,
    {
        let entry = HTML_ENTITIES_TABLE[i];
        if *entry.0 == *name {
            return Some(entry.1);
        }
        i += 1;
    }
    None
}

} // verus!
