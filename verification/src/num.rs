//! Fixed-point arithmetic for the engine.
//!
//! Every activation and edge weight is an `i64` in micro-units: `SCALE`
//! (one million) stands for `1.0`.  All rounding is floor division, so
//! each operation has one exact mathematical definition given by the
//! spec functions below.

use vstd::prelude::*;
use vstd::arithmetic::div_mod::{
    lemma_div_is_ordered, lemma_div_pos_is_pos, lemma_fundamental_div_mod,
    lemma_fundamental_div_mod_converse, lemma_div_multiples_vanish,
    lemma_mod_division_less_than_divisor,
};

verus! {

/// One activation unit: the fixed-point image of `1.0`.
pub const SCALE: i64 = 1_000_000;

/// Largest magnitude any activation may reach (one thousand units).
pub const MAX_ACT: i64 = 1_000_000_000;

/// Largest magnitude any edge weight may have (four units).
pub const MAX_WEIGHT: i64 = 4_000_000;

/// Largest number of edges a graph may hold.
pub const MAX_EDGES: usize = 256;

/// Largest magnitude a weighted input sum may reach:
/// `MAX_EDGES * MAX_ACT * MAX_WEIGHT`.
pub const MAX_WSUM: i64 = 1_024_000_000_000_000_000;

/// Pre-squash values at or below this threshold (one tenth of a unit)
/// bypass the logistic curve, so near-silent nodes are not pulled
/// toward its midpoint.
pub const THRESHOLD: i64 = 100_000;

/// Floor division of `a` by a positive divisor `d`.
pub open spec fn fdiv(a: int, d: int) -> int {
    a / d
}

/// Decay: a node retains three quarters of its value each tick.
pub open spec fn retained_spec(v: int) -> int {
    fdiv(3 * v, 4)
}

/// Injection blend: the old value keeps weight `0.3`, the supplied
/// value weight `0.7`.
pub open spec fn blend_spec(v: int, x: int) -> int {
    fdiv(3 * v + 7 * x, 10)
}

/// Stiffness: a weighted input sum (at scale `SCALE * SCALE`) is scaled
/// by `0.6` and brought back to activation scale.
pub open spec fn energy_spec(ws: int) -> int {
    fdiv(3 * ws, 5_000_000)
}

/// Clamp to the unit interval `[0, SCALE]`.
pub open spec fn clamp_spec(x: int) -> int {
    if x < 0 {
        0
    } else if x > SCALE {
        SCALE as int
    } else {
        x
    }
}

/// Knots of the piecewise-linear logistic curve, one every `0.008`
/// units from `-1.248` to `2.248` (437 segments); knot `k` sits at
/// `x = -1.248 + 0.008 * k` and holds `1 / (1 + exp(-6 * (x - 0.5)))`
/// rounded to micro-units.  This spacing keeps the interpolation
/// within `3e-5` of the logistic everywhere, and the saturation tails
/// are equally close to its limits.
pub open spec fn sig_knot(k: int) -> int {
    if k <= 0 {
        28
    } else if k == 1 {
        29
    } else if k == 2 {
        31
    } else if k == 3 {
        32
    } else if k == 4 {
        34
    } else if k == 5 {
        35
    } else if k == 6 {
        37
    } else if k == 7 {
        39
    } else if k == 8 {
        41
    } else if k == 9 {
        43
    } else if k == 10 {
        45
    } else if k == 11 {
        47
    } else if k == 12 {
        50
    } else if k == 13 {
        52
    } else if k == 14 {
        55
    } else if k == 15 {
        57
    } else if k == 16 {
        60
    } else if k == 17 {
        63
    } else if k == 18 {
        66
    } else if k == 19 {
        69
    } else if k == 20 {
        73
    } else if k == 21 {
        76
    } else if k == 22 {
        80
    } else if k == 23 {
        84
    } else if k == 24 {
        88
    } else if k == 25 {
        93
    } else if k == 26 {
        97
    } else if k == 27 {
        102
    } else if k == 28 {
        107
    } else if k == 29 {
        112
    } else if k == 30 {
        118
    } else if k == 31 {
        123
    } else if k == 32 {
        129
    } else if k == 33 {
        136
    } else if k == 34 {
        143
    } else if k == 35 {
        150
    } else if k == 36 {
        157
    } else if k == 37 {
        165
    } else if k == 38 {
        173
    } else if k == 39 {
        181
    } else if k == 40 {
        190
    } else if k == 41 {
        199
    } else if k == 42 {
        209
    } else if k == 43 {
        219
    } else if k == 44 {
        230
    } else if k == 45 {
        242
    } else if k == 46 {
        253
    } else if k == 47 {
        266
    } else if k == 48 {
        279
    } else if k == 49 {
        293
    } else if k == 50 {
        307
    } else if k == 51 {
        322
    } else if k == 52 {
        338
    } else if k == 53 {
        355
    } else if k == 54 {
        372
    } else if k == 55 {
        390
    } else if k == 56 {
        410
    } else if k == 57 {
        430
    } else if k == 58 {
        451
    } else if k == 59 {
        473
    } else if k == 60 {
        496
    } else if k == 61 {
        521
    } else if k == 62 {
        546
    } else if k == 63 {
        573
    } else if k == 64 {
        601
    } else if k == 65 {
        631
    } else if k == 66 {
        662
    } else if k == 67 {
        694
    } else if k == 68 {
        728
    } else if k == 69 {
        764
    } else if k == 70 {
        802
    } else if k == 71 {
        841
    } else if k == 72 {
        882
    } else if k == 73 {
        926
    } else if k == 74 {
        971
    } else if k == 75 {
        1_019
    } else if k == 76 {
        1_069
    } else if k == 77 {
        1_121
    } else if k == 78 {
        1_177
    } else if k == 79 {
        1_234
    } else if k == 80 {
        1_295
    } else if k == 81 {
        1_359
    } else if k == 82 {
        1_425
    } else if k == 83 {
        1_495
    } else if k == 84 {
        1_569
    } else if k == 85 {
        1_646
    } else if k == 86 {
        1_726
    } else if k == 87 {
        1_811
    } else if k == 88 {
        1_900
    } else if k == 89 {
        1_993
    } else if k == 90 {
        2_091
    } else if k == 91 {
        2_194
    } else if k == 92 {
        2_301
    } else if k == 93 {
        2_414
    } else if k == 94 {
        2_533
    } else if k == 95 {
        2_657
    } else if k == 96 {
        2_787
    } else if k == 97 {
        2_924
    } else if k == 98 {
        3_067
    } else if k == 99 {
        3_217
    } else if k == 100 {
        3_375
    } else if k == 101 {
        3_540
    } else if k == 102 {
        3_714
    } else if k == 103 {
        3_896
    } else if k == 104 {
        4_086
    } else if k == 105 {
        4_286
    } else if k == 106 {
        4_496
    } else if k == 107 {
        4_716
    } else if k == 108 {
        4_947
    } else if k == 109 {
        5_189
    } else if k == 110 {
        5_443
    } else if k == 111 {
        5_709
    } else if k == 112 {
        5_988
    } else if k == 113 {
        6_281
    } else if k == 114 {
        6_587
    } else if k == 115 {
        6_909
    } else if k == 116 {
        7_246
    } else if k == 117 {
        7_600
    } else if k == 118 {
        7_971
    } else if k == 119 {
        8_359
    } else if k == 120 {
        8_767
    } else if k == 121 {
        9_194
    } else if k == 122 {
        9_641
    } else if k == 123 {
        10_111
    } else if k == 124 {
        10_603
    } else if k == 125 {
        11_118
    } else if k == 126 {
        11_658
    } else if k == 127 {
        12_225
    } else if k == 128 {
        12_818
    } else if k == 129 {
        13_440
    } else if k == 130 {
        14_091
    } else if k == 131 {
        14_774
    } else if k == 132 {
        15_489
    } else if k == 133 {
        16_238
    } else if k == 134 {
        17_023
    } else if k == 135 {
        17_845
    } else if k == 136 {
        18_707
    } else if k == 137 {
        19_608
    } else if k == 138 {
        20_553
    } else if k == 139 {
        21_541
    } else if k == 140 {
        22_577
    } else if k == 141 {
        23_661
    } else if k == 142 {
        24_795
    } else if k == 143 {
        25_983
    } else if k == 144 {
        27_225
    } else if k == 145 {
        28_526
    } else if k == 146 {
        29_887
    } else if k == 147 {
        31_310
    } else if k == 148 {
        32_799
    } else if k == 149 {
        34_357
    } else if k == 150 {
        35_985
    } else if k == 151 {
        37_688
    } else if k == 152 {
        39_468
    } else if k == 153 {
        41_328
    } else if k == 154 {
        43_273
    } else if k == 155 {
        45_304
    } else if k == 156 {
        47_426
    } else if k == 157 {
        49_642
    } else if k == 158 {
        51_956
    } else if k == 159 {
        54_372
    } else if k == 160 {
        56_893
    } else if k == 161 {
        59_524
    } else if k == 162 {
        62_269
    } else if k == 163 {
        65_131
    } else if k == 164 {
        68_116
    } else if k == 165 {
        71_226
    } else if k == 166 {
        74_468
    } else if k == 167 {
        77_845
    } else if k == 168 {
        81_361
    } else if k == 169 {
        85_021
    } else if k == 170 {
        88_830
    } else if k == 171 {
        92_793
    } else if k == 172 {
        96_913
    } else if k == 173 {
        101_197
    } else if k == 174 {
        105_647
    } else if k == 175 {
        110_269
    } else if k == 176 {
        115_067
    } else if k == 177 {
        120_045
    } else if k == 178 {
        125_209
    } else if k == 179 {
        130_562
    } else if k == 180 {
        136_108
    } else if k == 181 {
        141_851
    } else if k == 182 {
        147_795
    } else if k == 183 {
        153_944
    } else if k == 184 {
        160_300
    } else if k == 185 {
        166_866
    } else if k == 186 {
        173_647
    } else if k == 187 {
        180_643
    } else if k == 188 {
        187_856
    } else if k == 189 {
        195_289
    } else if k == 190 {
        202_943
    } else if k == 191 {
        210_818
    } else if k == 192 {
        218_915
    } else if k == 193 {
        227_233
    } else if k == 194 {
        235_772
    } else if k == 195 {
        244_530
    } else if k == 196 {
        253_506
    } else if k == 197 {
        262_697
    } else if k == 198 {
        272_099
    } else if k == 199 {
        281_709
    } else if k == 200 {
        291_523
    } else if k == 201 {
        301_535
    } else if k == 202 {
        311_739
    } else if k == 203 {
        322_130
    } else if k == 204 {
        332_700
    } else if k == 205 {
        343_440
    } else if k == 206 {
        354_344
    } else if k == 207 {
        365_401
    } else if k == 208 {
        376_601
    } else if k == 209 {
        387_935
    } else if k == 210 {
        399_392
    } else if k == 211 {
        410_960
    } else if k == 212 {
        422_627
    } else if k == 213 {
        434_381
    } else if k == 214 {
        446_209
    } else if k == 215 {
        458_099
    } else if k == 216 {
        470_036
    } else if k == 217 {
        482_008
    } else if k == 218 {
        494_000
    } else if k == 219 {
        506_000
    } else if k == 220 {
        517_992
    } else if k == 221 {
        529_964
    } else if k == 222 {
        541_901
    } else if k == 223 {
        553_791
    } else if k == 224 {
        565_619
    } else if k == 225 {
        577_373
    } else if k == 226 {
        589_040
    } else if k == 227 {
        600_608
    } else if k == 228 {
        612_065
    } else if k == 229 {
        623_399
    } else if k == 230 {
        634_599
    } else if k == 231 {
        645_656
    } else if k == 232 {
        656_560
    } else if k == 233 {
        667_300
    } else if k == 234 {
        677_870
    } else if k == 235 {
        688_261
    } else if k == 236 {
        698_465
    } else if k == 237 {
        708_477
    } else if k == 238 {
        718_291
    } else if k == 239 {
        727_901
    } else if k == 240 {
        737_303
    } else if k == 241 {
        746_494
    } else if k == 242 {
        755_470
    } else if k == 243 {
        764_228
    } else if k == 244 {
        772_767
    } else if k == 245 {
        781_085
    } else if k == 246 {
        789_182
    } else if k == 247 {
        797_057
    } else if k == 248 {
        804_711
    } else if k == 249 {
        812_144
    } else if k == 250 {
        819_357
    } else if k == 251 {
        826_353
    } else if k == 252 {
        833_134
    } else if k == 253 {
        839_700
    } else if k == 254 {
        846_056
    } else if k == 255 {
        852_205
    } else if k == 256 {
        858_149
    } else if k == 257 {
        863_892
    } else if k == 258 {
        869_438
    } else if k == 259 {
        874_791
    } else if k == 260 {
        879_955
    } else if k == 261 {
        884_933
    } else if k == 262 {
        889_731
    } else if k == 263 {
        894_353
    } else if k == 264 {
        898_803
    } else if k == 265 {
        903_087
    } else if k == 266 {
        907_207
    } else if k == 267 {
        911_170
    } else if k == 268 {
        914_979
    } else if k == 269 {
        918_639
    } else if k == 270 {
        922_155
    } else if k == 271 {
        925_532
    } else if k == 272 {
        928_774
    } else if k == 273 {
        931_884
    } else if k == 274 {
        934_869
    } else if k == 275 {
        937_731
    } else if k == 276 {
        940_476
    } else if k == 277 {
        943_107
    } else if k == 278 {
        945_628
    } else if k == 279 {
        948_044
    } else if k == 280 {
        950_358
    } else if k == 281 {
        952_574
    } else if k == 282 {
        954_696
    } else if k == 283 {
        956_727
    } else if k == 284 {
        958_672
    } else if k == 285 {
        960_532
    } else if k == 286 {
        962_312
    } else if k == 287 {
        964_015
    } else if k == 288 {
        965_643
    } else if k == 289 {
        967_201
    } else if k == 290 {
        968_690
    } else if k == 291 {
        970_113
    } else if k == 292 {
        971_474
    } else if k == 293 {
        972_775
    } else if k == 294 {
        974_017
    } else if k == 295 {
        975_205
    } else if k == 296 {
        976_339
    } else if k == 297 {
        977_423
    } else if k == 298 {
        978_459
    } else if k == 299 {
        979_447
    } else if k == 300 {
        980_392
    } else if k == 301 {
        981_293
    } else if k == 302 {
        982_155
    } else if k == 303 {
        982_977
    } else if k == 304 {
        983_762
    } else if k == 305 {
        984_511
    } else if k == 306 {
        985_226
    } else if k == 307 {
        985_909
    } else if k == 308 {
        986_560
    } else if k == 309 {
        987_182
    } else if k == 310 {
        987_775
    } else if k == 311 {
        988_342
    } else if k == 312 {
        988_882
    } else if k == 313 {
        989_397
    } else if k == 314 {
        989_889
    } else if k == 315 {
        990_359
    } else if k == 316 {
        990_806
    } else if k == 317 {
        991_233
    } else if k == 318 {
        991_641
    } else if k == 319 {
        992_029
    } else if k == 320 {
        992_400
    } else if k == 321 {
        992_754
    } else if k == 322 {
        993_091
    } else if k == 323 {
        993_413
    } else if k == 324 {
        993_719
    } else if k == 325 {
        994_012
    } else if k == 326 {
        994_291
    } else if k == 327 {
        994_557
    } else if k == 328 {
        994_811
    } else if k == 329 {
        995_053
    } else if k == 330 {
        995_284
    } else if k == 331 {
        995_504
    } else if k == 332 {
        995_714
    } else if k == 333 {
        995_914
    } else if k == 334 {
        996_104
    } else if k == 335 {
        996_286
    } else if k == 336 {
        996_460
    } else if k == 337 {
        996_625
    } else if k == 338 {
        996_783
    } else if k == 339 {
        996_933
    } else if k == 340 {
        997_076
    } else if k == 341 {
        997_213
    } else if k == 342 {
        997_343
    } else if k == 343 {
        997_467
    } else if k == 344 {
        997_586
    } else if k == 345 {
        997_699
    } else if k == 346 {
        997_806
    } else if k == 347 {
        997_909
    } else if k == 348 {
        998_007
    } else if k == 349 {
        998_100
    } else if k == 350 {
        998_189
    } else if k == 351 {
        998_274
    } else if k == 352 {
        998_354
    } else if k == 353 {
        998_431
    } else if k == 354 {
        998_505
    } else if k == 355 {
        998_575
    } else if k == 356 {
        998_641
    } else if k == 357 {
        998_705
    } else if k == 358 {
        998_766
    } else if k == 359 {
        998_823
    } else if k == 360 {
        998_879
    } else if k == 361 {
        998_931
    } else if k == 362 {
        998_981
    } else if k == 363 {
        999_029
    } else if k == 364 {
        999_074
    } else if k == 365 {
        999_118
    } else if k == 366 {
        999_159
    } else if k == 367 {
        999_198
    } else if k == 368 {
        999_236
    } else if k == 369 {
        999_272
    } else if k == 370 {
        999_306
    } else if k == 371 {
        999_338
    } else if k == 372 {
        999_369
    } else if k == 373 {
        999_399
    } else if k == 374 {
        999_427
    } else if k == 375 {
        999_454
    } else if k == 376 {
        999_479
    } else if k == 377 {
        999_504
    } else if k == 378 {
        999_527
    } else if k == 379 {
        999_549
    } else if k == 380 {
        999_570
    } else if k == 381 {
        999_590
    } else if k == 382 {
        999_610
    } else if k == 383 {
        999_628
    } else if k == 384 {
        999_645
    } else if k == 385 {
        999_662
    } else if k == 386 {
        999_678
    } else if k == 387 {
        999_693
    } else if k == 388 {
        999_707
    } else if k == 389 {
        999_721
    } else if k == 390 {
        999_734
    } else if k == 391 {
        999_747
    } else if k == 392 {
        999_758
    } else if k == 393 {
        999_770
    } else if k == 394 {
        999_781
    } else if k == 395 {
        999_791
    } else if k == 396 {
        999_801
    } else if k == 397 {
        999_810
    } else if k == 398 {
        999_819
    } else if k == 399 {
        999_827
    } else if k == 400 {
        999_835
    } else if k == 401 {
        999_843
    } else if k == 402 {
        999_850
    } else if k == 403 {
        999_857
    } else if k == 404 {
        999_864
    } else if k == 405 {
        999_871
    } else if k == 406 {
        999_877
    } else if k == 407 {
        999_882
    } else if k == 408 {
        999_888
    } else if k == 409 {
        999_893
    } else if k == 410 {
        999_898
    } else if k == 411 {
        999_903
    } else if k == 412 {
        999_907
    } else if k == 413 {
        999_912
    } else if k == 414 {
        999_916
    } else if k == 415 {
        999_920
    } else if k == 416 {
        999_924
    } else if k == 417 {
        999_927
    } else if k == 418 {
        999_931
    } else if k == 419 {
        999_934
    } else if k == 420 {
        999_937
    } else if k == 421 {
        999_940
    } else if k == 422 {
        999_943
    } else if k == 423 {
        999_945
    } else if k == 424 {
        999_948
    } else if k == 425 {
        999_950
    } else if k == 426 {
        999_953
    } else if k == 427 {
        999_955
    } else if k == 428 {
        999_957
    } else if k == 429 {
        999_959
    } else if k == 430 {
        999_961
    } else if k == 431 {
        999_963
    } else if k == 432 {
        999_965
    } else if k == 433 {
        999_966
    } else if k == 434 {
        999_968
    } else if k == 435 {
        999_969
    } else if k == 436 {
        999_971
    } else {
        999_972
    }
}

/// The logistic squashing curve (steepness 6, midpoint 0.5), as the
/// piecewise-linear interpolation of `sig_knot`, saturated outside
/// `[-1.248, 2.248]` where the logistic is within `3e-5` of its limits.
pub open spec fn sigmoid_spec(x: int) -> int {
    if x <= -1_248_000 {
        28
    } else if x >= 2_248_000 {
        999_972
    } else {
        let t = x + 1_248_000;
        let k = fdiv(t, 8_000);
        let r = t % 8_000;
        sig_knot(k) + fdiv((sig_knot(k + 1) - sig_knot(k)) * r, 8_000)
    }
}

/// Finalization of a non-sensor node: squash when the raw value exceeds
/// the threshold, then clamp to the unit interval.
pub open spec fn squash_spec(raw: int) -> int {
    if raw > THRESHOLD {
        clamp_spec(sigmoid_spec(raw))
    } else {
        clamp_spec(raw)
    }
}

/// Floor division by a positive divisor, computed on magnitudes so that
/// only unsigned machine division is needed.
pub fn fdiv_exec(a: i64, d: i64) -> (q: i64)
    requires
        1 <= d,
        i64::MIN < a,
    ensures
        q == fdiv(a as int, d as int),
{
    if a >= 0 {
        let qu: u64 = (a as u64) / (d as u64);
        proof {
            lemma_div_is_ordered(0, a as int, d as int);
            lemma_div_is_ordered(qu as int, a as int, 1);
        }
        qu as i64
    } else {
        let m: u64 = (-a) as u64;
        let du: u64 = d as u64;
        let qu: u64 = m / du;
        let ru: u64 = m % du;
        proof {
            lemma_fundamental_div_mod(m as int, du as int);
            lemma_mod_division_less_than_divisor(m as int, du as int);
            if ru == 0 {
                assert(a as int == -(qu as int) * (d as int) + 0) by (nonlinear_arith)
                    requires
                        m == du * qu + ru,
                        ru == 0,
                        a == -(m as int),
                        du == d,
                ;
                lemma_fundamental_div_mod_converse(
                    a as int, d as int, -(qu as int), 0,
                );
            } else {
                assert(a as int == (-(qu as int) - 1) * (d as int) + (d - ru))
                    by (nonlinear_arith)
                    requires
                        m == du * qu + ru,
                        a == -(m as int),
                        du == d,
                ;
                lemma_fundamental_div_mod_converse(
                    a as int, d as int, -(qu as int) - 1, d - ru,
                );
            }
            lemma_div_is_ordered(qu as int, m as int, 1);
        }
        if ru == 0 {
            -(qu as i64)
        } else {
            -(qu as i64) - 1
        }
    }
}

/// Blend an activation with an injected value.
pub fn blend(v: i64, x: i64) -> (r: i64)
    requires
        -MAX_ACT <= v <= MAX_ACT,
        -MAX_ACT <= x <= MAX_ACT,
    ensures
        r == blend_spec(v as int, x as int),
        -MAX_ACT <= r <= MAX_ACT,
{
    let num: i64 = 3 * v + 7 * x;
    let q = fdiv_exec(num, 10);
    proof {
        lemma_div_is_ordered(-10 * MAX_ACT, num as int, 10);
        lemma_div_is_ordered(num as int, 10 * MAX_ACT, 10);
        lemma_div_multiples_vanish(-(MAX_ACT as int), 10);
        lemma_div_multiples_vanish(MAX_ACT as int, 10);
    }
    q
}

/// Decay an activation by one tick.
pub fn retained(v: i64) -> (r: i64)
    requires
        -MAX_ACT <= v <= MAX_ACT,
    ensures
        r == retained_spec(v as int),
        -MAX_ACT <= r <= MAX_ACT,
{
    let q = fdiv_exec(3 * v, 4);
    proof {
        lemma_div_is_ordered(-4 * MAX_ACT, 3 * v, 4);
        lemma_div_is_ordered(3 * v, 4 * MAX_ACT, 4);
        lemma_div_multiples_vanish(-(MAX_ACT as int), 4);
        lemma_div_multiples_vanish(MAX_ACT as int, 4);
    }
    q
}

/// Scale a weighted input sum by the stiffness factor.
pub fn energy(ws: i64) -> (r: i64)
    requires
        -MAX_WSUM <= ws <= MAX_WSUM,
    ensures
        r == energy_spec(ws as int),
        -1_000_000_000_000 <= r <= 1_000_000_000_000,
{
    let q = fdiv_exec(3 * ws, 5_000_000);
    proof {
        lemma_div_is_ordered(-5_000_000int * 1_000_000_000_000int, 3 * ws, 5_000_000);
        lemma_div_is_ordered(3 * ws, 5_000_000int * 1_000_000_000_000int, 5_000_000);
        lemma_div_multiples_vanish(-1_000_000_000_000, 5_000_000);
        lemma_div_multiples_vanish(1_000_000_000_000, 5_000_000);
    }
    q
}

/// Clamp a value to the unit interval.
pub fn clamp_unit(x: i64) -> (r: i64)
    ensures
        r == clamp_spec(x as int),
{
    if x < 0 {
        0
    } else if x > SCALE {
        SCALE
    } else {
        x
    }
}

/// One knot of the logistic table.
fn sig_knot_exec(k: u64) -> (y: i64)
    ensures
        y == sig_knot(k as int),
{
    if k == 0 {
        28
    } else if k == 1 {
        29
    } else if k == 2 {
        31
    } else if k == 3 {
        32
    } else if k == 4 {
        34
    } else if k == 5 {
        35
    } else if k == 6 {
        37
    } else if k == 7 {
        39
    } else if k == 8 {
        41
    } else if k == 9 {
        43
    } else if k == 10 {
        45
    } else if k == 11 {
        47
    } else if k == 12 {
        50
    } else if k == 13 {
        52
    } else if k == 14 {
        55
    } else if k == 15 {
        57
    } else if k == 16 {
        60
    } else if k == 17 {
        63
    } else if k == 18 {
        66
    } else if k == 19 {
        69
    } else if k == 20 {
        73
    } else if k == 21 {
        76
    } else if k == 22 {
        80
    } else if k == 23 {
        84
    } else if k == 24 {
        88
    } else if k == 25 {
        93
    } else if k == 26 {
        97
    } else if k == 27 {
        102
    } else if k == 28 {
        107
    } else if k == 29 {
        112
    } else if k == 30 {
        118
    } else if k == 31 {
        123
    } else if k == 32 {
        129
    } else if k == 33 {
        136
    } else if k == 34 {
        143
    } else if k == 35 {
        150
    } else if k == 36 {
        157
    } else if k == 37 {
        165
    } else if k == 38 {
        173
    } else if k == 39 {
        181
    } else if k == 40 {
        190
    } else if k == 41 {
        199
    } else if k == 42 {
        209
    } else if k == 43 {
        219
    } else if k == 44 {
        230
    } else if k == 45 {
        242
    } else if k == 46 {
        253
    } else if k == 47 {
        266
    } else if k == 48 {
        279
    } else if k == 49 {
        293
    } else if k == 50 {
        307
    } else if k == 51 {
        322
    } else if k == 52 {
        338
    } else if k == 53 {
        355
    } else if k == 54 {
        372
    } else if k == 55 {
        390
    } else if k == 56 {
        410
    } else if k == 57 {
        430
    } else if k == 58 {
        451
    } else if k == 59 {
        473
    } else if k == 60 {
        496
    } else if k == 61 {
        521
    } else if k == 62 {
        546
    } else if k == 63 {
        573
    } else if k == 64 {
        601
    } else if k == 65 {
        631
    } else if k == 66 {
        662
    } else if k == 67 {
        694
    } else if k == 68 {
        728
    } else if k == 69 {
        764
    } else if k == 70 {
        802
    } else if k == 71 {
        841
    } else if k == 72 {
        882
    } else if k == 73 {
        926
    } else if k == 74 {
        971
    } else if k == 75 {
        1_019
    } else if k == 76 {
        1_069
    } else if k == 77 {
        1_121
    } else if k == 78 {
        1_177
    } else if k == 79 {
        1_234
    } else if k == 80 {
        1_295
    } else if k == 81 {
        1_359
    } else if k == 82 {
        1_425
    } else if k == 83 {
        1_495
    } else if k == 84 {
        1_569
    } else if k == 85 {
        1_646
    } else if k == 86 {
        1_726
    } else if k == 87 {
        1_811
    } else if k == 88 {
        1_900
    } else if k == 89 {
        1_993
    } else if k == 90 {
        2_091
    } else if k == 91 {
        2_194
    } else if k == 92 {
        2_301
    } else if k == 93 {
        2_414
    } else if k == 94 {
        2_533
    } else if k == 95 {
        2_657
    } else if k == 96 {
        2_787
    } else if k == 97 {
        2_924
    } else if k == 98 {
        3_067
    } else if k == 99 {
        3_217
    } else if k == 100 {
        3_375
    } else if k == 101 {
        3_540
    } else if k == 102 {
        3_714
    } else if k == 103 {
        3_896
    } else if k == 104 {
        4_086
    } else if k == 105 {
        4_286
    } else if k == 106 {
        4_496
    } else if k == 107 {
        4_716
    } else if k == 108 {
        4_947
    } else if k == 109 {
        5_189
    } else if k == 110 {
        5_443
    } else if k == 111 {
        5_709
    } else if k == 112 {
        5_988
    } else if k == 113 {
        6_281
    } else if k == 114 {
        6_587
    } else if k == 115 {
        6_909
    } else if k == 116 {
        7_246
    } else if k == 117 {
        7_600
    } else if k == 118 {
        7_971
    } else if k == 119 {
        8_359
    } else if k == 120 {
        8_767
    } else if k == 121 {
        9_194
    } else if k == 122 {
        9_641
    } else if k == 123 {
        10_111
    } else if k == 124 {
        10_603
    } else if k == 125 {
        11_118
    } else if k == 126 {
        11_658
    } else if k == 127 {
        12_225
    } else if k == 128 {
        12_818
    } else if k == 129 {
        13_440
    } else if k == 130 {
        14_091
    } else if k == 131 {
        14_774
    } else if k == 132 {
        15_489
    } else if k == 133 {
        16_238
    } else if k == 134 {
        17_023
    } else if k == 135 {
        17_845
    } else if k == 136 {
        18_707
    } else if k == 137 {
        19_608
    } else if k == 138 {
        20_553
    } else if k == 139 {
        21_541
    } else if k == 140 {
        22_577
    } else if k == 141 {
        23_661
    } else if k == 142 {
        24_795
    } else if k == 143 {
        25_983
    } else if k == 144 {
        27_225
    } else if k == 145 {
        28_526
    } else if k == 146 {
        29_887
    } else if k == 147 {
        31_310
    } else if k == 148 {
        32_799
    } else if k == 149 {
        34_357
    } else if k == 150 {
        35_985
    } else if k == 151 {
        37_688
    } else if k == 152 {
        39_468
    } else if k == 153 {
        41_328
    } else if k == 154 {
        43_273
    } else if k == 155 {
        45_304
    } else if k == 156 {
        47_426
    } else if k == 157 {
        49_642
    } else if k == 158 {
        51_956
    } else if k == 159 {
        54_372
    } else if k == 160 {
        56_893
    } else if k == 161 {
        59_524
    } else if k == 162 {
        62_269
    } else if k == 163 {
        65_131
    } else if k == 164 {
        68_116
    } else if k == 165 {
        71_226
    } else if k == 166 {
        74_468
    } else if k == 167 {
        77_845
    } else if k == 168 {
        81_361
    } else if k == 169 {
        85_021
    } else if k == 170 {
        88_830
    } else if k == 171 {
        92_793
    } else if k == 172 {
        96_913
    } else if k == 173 {
        101_197
    } else if k == 174 {
        105_647
    } else if k == 175 {
        110_269
    } else if k == 176 {
        115_067
    } else if k == 177 {
        120_045
    } else if k == 178 {
        125_209
    } else if k == 179 {
        130_562
    } else if k == 180 {
        136_108
    } else if k == 181 {
        141_851
    } else if k == 182 {
        147_795
    } else if k == 183 {
        153_944
    } else if k == 184 {
        160_300
    } else if k == 185 {
        166_866
    } else if k == 186 {
        173_647
    } else if k == 187 {
        180_643
    } else if k == 188 {
        187_856
    } else if k == 189 {
        195_289
    } else if k == 190 {
        202_943
    } else if k == 191 {
        210_818
    } else if k == 192 {
        218_915
    } else if k == 193 {
        227_233
    } else if k == 194 {
        235_772
    } else if k == 195 {
        244_530
    } else if k == 196 {
        253_506
    } else if k == 197 {
        262_697
    } else if k == 198 {
        272_099
    } else if k == 199 {
        281_709
    } else if k == 200 {
        291_523
    } else if k == 201 {
        301_535
    } else if k == 202 {
        311_739
    } else if k == 203 {
        322_130
    } else if k == 204 {
        332_700
    } else if k == 205 {
        343_440
    } else if k == 206 {
        354_344
    } else if k == 207 {
        365_401
    } else if k == 208 {
        376_601
    } else if k == 209 {
        387_935
    } else if k == 210 {
        399_392
    } else if k == 211 {
        410_960
    } else if k == 212 {
        422_627
    } else if k == 213 {
        434_381
    } else if k == 214 {
        446_209
    } else if k == 215 {
        458_099
    } else if k == 216 {
        470_036
    } else if k == 217 {
        482_008
    } else if k == 218 {
        494_000
    } else if k == 219 {
        506_000
    } else if k == 220 {
        517_992
    } else if k == 221 {
        529_964
    } else if k == 222 {
        541_901
    } else if k == 223 {
        553_791
    } else if k == 224 {
        565_619
    } else if k == 225 {
        577_373
    } else if k == 226 {
        589_040
    } else if k == 227 {
        600_608
    } else if k == 228 {
        612_065
    } else if k == 229 {
        623_399
    } else if k == 230 {
        634_599
    } else if k == 231 {
        645_656
    } else if k == 232 {
        656_560
    } else if k == 233 {
        667_300
    } else if k == 234 {
        677_870
    } else if k == 235 {
        688_261
    } else if k == 236 {
        698_465
    } else if k == 237 {
        708_477
    } else if k == 238 {
        718_291
    } else if k == 239 {
        727_901
    } else if k == 240 {
        737_303
    } else if k == 241 {
        746_494
    } else if k == 242 {
        755_470
    } else if k == 243 {
        764_228
    } else if k == 244 {
        772_767
    } else if k == 245 {
        781_085
    } else if k == 246 {
        789_182
    } else if k == 247 {
        797_057
    } else if k == 248 {
        804_711
    } else if k == 249 {
        812_144
    } else if k == 250 {
        819_357
    } else if k == 251 {
        826_353
    } else if k == 252 {
        833_134
    } else if k == 253 {
        839_700
    } else if k == 254 {
        846_056
    } else if k == 255 {
        852_205
    } else if k == 256 {
        858_149
    } else if k == 257 {
        863_892
    } else if k == 258 {
        869_438
    } else if k == 259 {
        874_791
    } else if k == 260 {
        879_955
    } else if k == 261 {
        884_933
    } else if k == 262 {
        889_731
    } else if k == 263 {
        894_353
    } else if k == 264 {
        898_803
    } else if k == 265 {
        903_087
    } else if k == 266 {
        907_207
    } else if k == 267 {
        911_170
    } else if k == 268 {
        914_979
    } else if k == 269 {
        918_639
    } else if k == 270 {
        922_155
    } else if k == 271 {
        925_532
    } else if k == 272 {
        928_774
    } else if k == 273 {
        931_884
    } else if k == 274 {
        934_869
    } else if k == 275 {
        937_731
    } else if k == 276 {
        940_476
    } else if k == 277 {
        943_107
    } else if k == 278 {
        945_628
    } else if k == 279 {
        948_044
    } else if k == 280 {
        950_358
    } else if k == 281 {
        952_574
    } else if k == 282 {
        954_696
    } else if k == 283 {
        956_727
    } else if k == 284 {
        958_672
    } else if k == 285 {
        960_532
    } else if k == 286 {
        962_312
    } else if k == 287 {
        964_015
    } else if k == 288 {
        965_643
    } else if k == 289 {
        967_201
    } else if k == 290 {
        968_690
    } else if k == 291 {
        970_113
    } else if k == 292 {
        971_474
    } else if k == 293 {
        972_775
    } else if k == 294 {
        974_017
    } else if k == 295 {
        975_205
    } else if k == 296 {
        976_339
    } else if k == 297 {
        977_423
    } else if k == 298 {
        978_459
    } else if k == 299 {
        979_447
    } else if k == 300 {
        980_392
    } else if k == 301 {
        981_293
    } else if k == 302 {
        982_155
    } else if k == 303 {
        982_977
    } else if k == 304 {
        983_762
    } else if k == 305 {
        984_511
    } else if k == 306 {
        985_226
    } else if k == 307 {
        985_909
    } else if k == 308 {
        986_560
    } else if k == 309 {
        987_182
    } else if k == 310 {
        987_775
    } else if k == 311 {
        988_342
    } else if k == 312 {
        988_882
    } else if k == 313 {
        989_397
    } else if k == 314 {
        989_889
    } else if k == 315 {
        990_359
    } else if k == 316 {
        990_806
    } else if k == 317 {
        991_233
    } else if k == 318 {
        991_641
    } else if k == 319 {
        992_029
    } else if k == 320 {
        992_400
    } else if k == 321 {
        992_754
    } else if k == 322 {
        993_091
    } else if k == 323 {
        993_413
    } else if k == 324 {
        993_719
    } else if k == 325 {
        994_012
    } else if k == 326 {
        994_291
    } else if k == 327 {
        994_557
    } else if k == 328 {
        994_811
    } else if k == 329 {
        995_053
    } else if k == 330 {
        995_284
    } else if k == 331 {
        995_504
    } else if k == 332 {
        995_714
    } else if k == 333 {
        995_914
    } else if k == 334 {
        996_104
    } else if k == 335 {
        996_286
    } else if k == 336 {
        996_460
    } else if k == 337 {
        996_625
    } else if k == 338 {
        996_783
    } else if k == 339 {
        996_933
    } else if k == 340 {
        997_076
    } else if k == 341 {
        997_213
    } else if k == 342 {
        997_343
    } else if k == 343 {
        997_467
    } else if k == 344 {
        997_586
    } else if k == 345 {
        997_699
    } else if k == 346 {
        997_806
    } else if k == 347 {
        997_909
    } else if k == 348 {
        998_007
    } else if k == 349 {
        998_100
    } else if k == 350 {
        998_189
    } else if k == 351 {
        998_274
    } else if k == 352 {
        998_354
    } else if k == 353 {
        998_431
    } else if k == 354 {
        998_505
    } else if k == 355 {
        998_575
    } else if k == 356 {
        998_641
    } else if k == 357 {
        998_705
    } else if k == 358 {
        998_766
    } else if k == 359 {
        998_823
    } else if k == 360 {
        998_879
    } else if k == 361 {
        998_931
    } else if k == 362 {
        998_981
    } else if k == 363 {
        999_029
    } else if k == 364 {
        999_074
    } else if k == 365 {
        999_118
    } else if k == 366 {
        999_159
    } else if k == 367 {
        999_198
    } else if k == 368 {
        999_236
    } else if k == 369 {
        999_272
    } else if k == 370 {
        999_306
    } else if k == 371 {
        999_338
    } else if k == 372 {
        999_369
    } else if k == 373 {
        999_399
    } else if k == 374 {
        999_427
    } else if k == 375 {
        999_454
    } else if k == 376 {
        999_479
    } else if k == 377 {
        999_504
    } else if k == 378 {
        999_527
    } else if k == 379 {
        999_549
    } else if k == 380 {
        999_570
    } else if k == 381 {
        999_590
    } else if k == 382 {
        999_610
    } else if k == 383 {
        999_628
    } else if k == 384 {
        999_645
    } else if k == 385 {
        999_662
    } else if k == 386 {
        999_678
    } else if k == 387 {
        999_693
    } else if k == 388 {
        999_707
    } else if k == 389 {
        999_721
    } else if k == 390 {
        999_734
    } else if k == 391 {
        999_747
    } else if k == 392 {
        999_758
    } else if k == 393 {
        999_770
    } else if k == 394 {
        999_781
    } else if k == 395 {
        999_791
    } else if k == 396 {
        999_801
    } else if k == 397 {
        999_810
    } else if k == 398 {
        999_819
    } else if k == 399 {
        999_827
    } else if k == 400 {
        999_835
    } else if k == 401 {
        999_843
    } else if k == 402 {
        999_850
    } else if k == 403 {
        999_857
    } else if k == 404 {
        999_864
    } else if k == 405 {
        999_871
    } else if k == 406 {
        999_877
    } else if k == 407 {
        999_882
    } else if k == 408 {
        999_888
    } else if k == 409 {
        999_893
    } else if k == 410 {
        999_898
    } else if k == 411 {
        999_903
    } else if k == 412 {
        999_907
    } else if k == 413 {
        999_912
    } else if k == 414 {
        999_916
    } else if k == 415 {
        999_920
    } else if k == 416 {
        999_924
    } else if k == 417 {
        999_927
    } else if k == 418 {
        999_931
    } else if k == 419 {
        999_934
    } else if k == 420 {
        999_937
    } else if k == 421 {
        999_940
    } else if k == 422 {
        999_943
    } else if k == 423 {
        999_945
    } else if k == 424 {
        999_948
    } else if k == 425 {
        999_950
    } else if k == 426 {
        999_953
    } else if k == 427 {
        999_955
    } else if k == 428 {
        999_957
    } else if k == 429 {
        999_959
    } else if k == 430 {
        999_961
    } else if k == 431 {
        999_963
    } else if k == 432 {
        999_965
    } else if k == 433 {
        999_966
    } else if k == 434 {
        999_968
    } else if k == 435 {
        999_969
    } else if k == 436 {
        999_971
    } else {
        999_972
    }
}

/// The piecewise-linear logistic curve.
pub fn sigmoid_pl(x: i64) -> (r: i64)
    ensures
        r == sigmoid_spec(x as int),
        28 <= r <= 999_972,
{
    if x <= -1_248_000 {
        28
    } else if x >= 2_248_000 {
        999_972
    } else {
        let t: u64 = (x + 1_248_000) as u64;
        let k: u64 = t / 8_000;
        let r: u64 = t % 8_000;
        proof {
            lemma_fundamental_div_mod(t as int, 8_000);
            lemma_mod_division_less_than_divisor(t as int, 8_000);
            lemma_div_pos_is_pos(t as int, 8_000);
            lemma_div_is_ordered(t as int, 3_495_999, 8_000);
            lemma_fundamental_div_mod_converse(3_495_999, 8_000, 436, 7_999);
            lemma_knot_step(k as int);
            lemma_knot_range(k as int);
            lemma_knot_range(k as int + 1);
        }
        let y0: i64 = sig_knot_exec(k);
        let y1: i64 = sig_knot_exec(k + 1);
        proof {
            assert(0 <= (y1 - y0) * (r as int) <= 12_000int * 8_000int) by (nonlinear_arith)
                requires
                    0 <= y1 - y0 <= 12_000,
                    0 <= r <= 8_000,
            ;
            assert((y1 - y0) * (r as int) <= (y1 - y0) * 8_000) by (nonlinear_arith)
                requires
                    0 <= r <= 8_000,
                    y1 - y0 >= 0,
            ;
            lemma_div_pos_is_pos((y1 - y0) * (r as int), 8_000);
            lemma_div_is_ordered((y1 - y0) * (r as int), (y1 - y0) * 8_000, 8_000);
            lemma_div_multiples_vanish((y1 - y0) as int, 8_000);
        }
        let step: u64 = ((y1 - y0) as u64 * r) / 8_000;
        y0 + step as i64
    }
}


/// Between consecutive knots of the table the curve rises by at least
/// one micro-unit and by at most 12_000.
proof fn lemma_knot_step(k: int)
    requires
        0 <= k < 437,
    ensures
        1 <= sig_knot(k + 1) - sig_knot(k) <= 12_000,
{
    if k < 90 {
        assert(1 <= sig_knot(k + 1) - sig_knot(k) <= 12_000);
    } else if k < 180 {
        assert(1 <= sig_knot(k + 1) - sig_knot(k) <= 12_000);
    } else if k < 270 {
        assert(1 <= sig_knot(k + 1) - sig_knot(k) <= 12_000);
    } else if k < 360 {
        assert(1 <= sig_knot(k + 1) - sig_knot(k) <= 12_000);
    } else {
        assert(1 <= sig_knot(k + 1) - sig_knot(k) <= 12_000);
    }
}

/// Every knot lies between the two saturation values.
proof fn lemma_knot_range(k: int)
    ensures
        28 <= sig_knot(k) <= 999_972,
{
    if k <= 0 {
    } else if k < 90 {
        assert(28 <= sig_knot(k) <= 999_972);
    } else if k < 180 {
        assert(28 <= sig_knot(k) <= 999_972);
    } else if k < 270 {
        assert(28 <= sig_knot(k) <= 999_972);
    } else if k < 360 {
        assert(28 <= sig_knot(k) <= 999_972);
    } else if k < 437 {
        assert(28 <= sig_knot(k) <= 999_972);
    } else {
    }
}

/// The knot table never falls.
proof fn lemma_knot_mono(i: int, j: int)
    requires
        i <= j,
    ensures
        sig_knot(i) <= sig_knot(j),
    decreases j - i,
{
    if i < j {
        lemma_knot_mono(i, j - 1);
        if 1 <= j <= 437 {
            lemma_knot_step(j - 1);
        }
    }
}

/// Inside the table the knots rise strictly.
proof fn lemma_knot_strict(i: int, j: int)
    requires
        0 <= i < j <= 437,
    ensures
        sig_knot(i) < sig_knot(j),
{
    lemma_knot_step(i);
    lemma_knot_mono(i + 1, j);
}

/// Inside the table the curve lies between its segment's knots: at or
/// above the left knot, strictly below the right one.
proof fn lemma_sigmoid_interp_bounds(x: int)
    requires
        -1_248_000 < x < 2_248_000,
    ensures
        0 <= fdiv(x + 1_248_000, 8_000) <= 436,
        sig_knot(fdiv(x + 1_248_000, 8_000)) <= sigmoid_spec(x),
        sigmoid_spec(x) < sig_knot(fdiv(x + 1_248_000, 8_000) + 1),
{
    let t = x + 1_248_000;
    let k = fdiv(t, 8_000);
    let r = t % 8_000;
    lemma_fundamental_div_mod(t, 8_000);
    lemma_mod_division_less_than_divisor(t, 8_000);
    lemma_div_pos_is_pos(t, 8_000);
    lemma_div_is_ordered(t, 3_495_999, 8_000);
    lemma_fundamental_div_mod_converse(3_495_999, 8_000, 436, 7_999);
    lemma_knot_step(k);
    let d = sig_knot(k + 1) - sig_knot(k);
    assert(0 <= d * r && d * r <= d * 8_000 - d) by (nonlinear_arith)
        requires
            0 <= r <= 7_999,
            d >= 1,
    ;
    lemma_div_pos_is_pos(d * r, 8_000);
    lemma_div_is_ordered(d * r, d * 8_000 - 1, 8_000);
    lemma_fundamental_div_mod_converse(d * 8_000 - 1, 8_000, d - 1, 7_999);
}

/// The curve stays within its saturation values.
pub proof fn lemma_sigmoid_range(x: int)
    ensures
        28 <= sigmoid_spec(x) <= 999_972,
{
    if -1_248_000 < x && x < 2_248_000 {
        lemma_sigmoid_interp_bounds(x);
        lemma_knot_range(fdiv(x + 1_248_000, 8_000));
        lemma_knot_range(fdiv(x + 1_248_000, 8_000) + 1);
    }
}

/// The curve never falls as its input grows.
pub proof fn lemma_sigmoid_mono(a: int, b: int)
    requires
        a <= b,
    ensures
        sigmoid_spec(a) <= sigmoid_spec(b),
{
    lemma_sigmoid_range(a);
    lemma_sigmoid_range(b);
    if -1_248_000 < a && a < 2_248_000 && -1_248_000 < b && b < 2_248_000 {
        let ta = a + 1_248_000;
        let tb = b + 1_248_000;
        let ka = fdiv(ta, 8_000);
        let kb = fdiv(tb, 8_000);
        lemma_sigmoid_interp_bounds(a);
        lemma_sigmoid_interp_bounds(b);
        lemma_div_is_ordered(ta, tb, 8_000);
        if ka == kb {
            lemma_fundamental_div_mod(ta, 8_000);
            lemma_fundamental_div_mod(tb, 8_000);
            lemma_knot_step(ka);
            let d = sig_knot(ka + 1) - sig_knot(ka);
            assert(d * (ta % 8_000) <= d * (tb % 8_000)) by (nonlinear_arith)
                requires
                    0 <= ta % 8_000 <= tb % 8_000,
                    d >= 0,
            ;
            lemma_div_is_ordered(d * (ta % 8_000), d * (tb % 8_000), 8_000);
        } else {
            lemma_knot_mono(ka + 1, kb);
        }
    }
}

/// Strictly increasing across at least two full segments of the curve,
/// up to the saturation knee.
pub proof fn lemma_sigmoid_strict(a: int, b: int)
    requires
        a + 16_001 <= b,
        100_000 < b <= 2_248_000,
    ensures
        sigmoid_spec(a) < sigmoid_spec(b),
{
    if b == 2_248_000 {
        if a <= -1_248_000 {
        } else {
            lemma_sigmoid_interp_bounds(a);
            lemma_knot_mono(fdiv(a + 1_248_000, 8_000) + 1, 437);
        }
    } else {
        let tb = b + 1_248_000;
        let kb = fdiv(tb, 8_000);
        lemma_sigmoid_interp_bounds(b);
        lemma_div_is_ordered(1_348_001, tb, 8_000);
        lemma_fundamental_div_mod_converse(1_348_001, 8_000, 168, 4_001);
        if a <= -1_248_000 {
            lemma_knot_strict(0, kb);
        } else {
            let ta = a + 1_248_000;
            let ka = fdiv(ta, 8_000);
            lemma_sigmoid_interp_bounds(a);
            lemma_fundamental_div_mod(tb, 8_000);
            lemma_mod_division_less_than_divisor(tb, 8_000);
            lemma_div_is_ordered(ta, 8_000 * (kb - 1) - 1, 8_000);
            lemma_fundamental_div_mod_converse(8_000 * (kb - 1) - 1, 8_000, kb - 2, 7_999);
            lemma_knot_mono(ka + 1, kb);
        }
    }
}

/// Value of the curve at `0.134`, just past the threshold window.
proof fn lemma_sigmoid_at_recovery()
    ensures
        sigmoid_spec(134_000) == 100_126,
{
    lemma_fundamental_div_mod_converse(1_382_000, 8_000, 172, 6_000);
    lemma_fundamental_div_mod_converse(4_284int * 6_000int, 8_000, 3_213, 0);
    assert(sig_knot(172) == 96_913);
    assert(sig_knot(173) == 101_197);
}

/// Finalization never falls as its raw input grows, away from the
/// threshold window: the logistic dips below the threshold just above
/// it (`sigmoid(0.1) ~= 0.083`), so between `0.1` and `0.134` a higher
/// raw value can finalize lower.  The law holds whenever the larger raw
/// value sits outside that window.
pub proof fn lemma_squash_mono(a: int, b: int)
    requires
        a <= b,
        b <= THRESHOLD || a > THRESHOLD || b >= 134_000,
    ensures
        squash_spec(a) <= squash_spec(b),
{
    if b <= THRESHOLD {
    } else if a > THRESHOLD {
        lemma_sigmoid_mono(a, b);
        lemma_sigmoid_range(a);
        lemma_sigmoid_range(b);
    } else {
        lemma_sigmoid_mono(134_000, b);
        lemma_sigmoid_range(b);
        lemma_sigmoid_at_recovery();
    }
}

/// Finalization rises strictly when both raw values are squashed, at
/// least two curve segments apart, and below the saturation knee.
pub proof fn lemma_squash_strict(a: int, b: int)
    requires
        THRESHOLD < a,
        a + 16_001 <= b,
        b <= 2_248_000,
    ensures
        squash_spec(a) < squash_spec(b),
{
    lemma_sigmoid_strict(a, b);
    lemma_sigmoid_range(a);
    lemma_sigmoid_range(b);
}

} // verus!
