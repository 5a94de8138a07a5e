//! Reference tables of the playback engine: the note periods, their fine-tuned
//! variants, the linear fine-tune multipliers and the low-frequency oscillator.

use vstd::prelude::*;

verus! {

/// The note periods in ascending order, from B-6 (highest pitch) to C-2 (lowest).
pub const FREQUENCY_TABLE: [u32; 60] = [
    57, 60, 64, 67, 71, 76, 80, 85, 90, 95, 101, 107, 113, 120, 127, 135, 143, 151, 160, 170,
    180, 190, 202, 214, 226, 240, 254, 269, 285, 302, 320, 339, 360, 381, 404, 428, 453, 480,
    508, 538, 570, 604, 640, 678, 720, 762, 808, 856, 907, 961, 1017, 1077, 1141, 1209, 1281,
    1357, 1440, 1525, 1616, 1712,
];

/// The period to use for each fine-tune setting (outer index) and each entry of
/// `FREQUENCY_TABLE` (inner index). Settings 0 to 7 raise the pitch in steps of
/// an eighth of a semitone; settings 8 to 15 stand for -8 to -1 and lower it.
pub const FINE_TUNE_TABLE: [[u32; 60]; 16] = [
    [
        57, 60, 64, 67, 71, 76, 80, 85, 90, 95, 101, 107, 113, 120, 127, 135, 143, 151, 160,
        170, 180, 190, 202, 214, 226, 240, 254, 269, 285, 302, 320, 339, 360, 381, 404, 428,
        453, 480, 508, 538, 570, 604, 640, 678, 720, 762, 808, 856, 907, 961, 1017, 1077, 1141,
        1209, 1281, 1357, 1440, 1525, 1616, 1712,
    ],
    [
        57, 60, 64, 67, 70, 75, 79, 84, 89, 94, 100, 106, 113, 119, 126, 134, 142, 150, 159,
        169, 179, 189, 201, 213, 225, 239, 253, 268, 284, 300, 318, 337, 357, 379, 401, 425,
        450, 477, 505, 535, 567, 601, 637, 674, 715, 757, 802, 850, 900, 954, 1010, 1069, 1133,
        1200, 1272, 1347, 1430, 1514, 1604, 1700,
    ],
    [
        56, 59, 63, 66, 70, 75, 79, 84, 89, 94, 100, 105, 112, 118, 125, 133, 141, 149, 158,
        167, 177, 188, 199, 211, 224, 237, 251, 266, 282, 298, 316, 335, 355, 376, 398, 422,
        447, 474, 502, 532, 563, 597, 632, 670, 709, 752, 796, 844, 894, 947, 1002, 1062, 1125,
        1192, 1263, 1338, 1419, 1503, 1593, 1687,
    ],
    [
        56, 59, 63, 66, 69, 74, 78, 83, 88, 93, 99, 105, 111, 118, 125, 132, 140, 148, 157, 166,
        176, 187, 198, 209, 222, 235, 249, 264, 280, 296, 314, 332, 352, 373, 395, 419, 444,
        470, 498, 528, 559, 592, 628, 665, 704, 746, 791, 838, 888, 940, 995, 1054, 1117, 1183,
        1254, 1328, 1409, 1492, 1581, 1675,
    ],
    [
        55, 58, 62, 65, 69, 74, 78, 83, 87, 92, 98, 104, 110, 117, 124, 131, 139, 147, 156, 165,
        175, 185, 196, 208, 220, 233, 247, 262, 278, 294, 312, 330, 350, 370, 392, 416, 441,
        467, 495, 524, 555, 588, 623, 660, 699, 741, 785, 832, 881, 934, 988, 1046, 1109, 1175,
        1245, 1318, 1399, 1482, 1570, 1663,
    ],
    [
        55, 58, 62, 65, 68, 73, 77, 82, 87, 92, 97, 103, 109, 116, 123, 130, 138, 146, 155, 164,
        174, 184, 195, 206, 219, 232, 245, 260, 276, 292, 309, 328, 347, 368, 390, 413, 437,
        463, 491, 520, 551, 584, 619, 655, 694, 736, 779, 826, 875, 927, 981, 1039, 1101, 1166,
        1236, 1309, 1389, 1471, 1559, 1651,
    ],
    [
        55, 57, 61, 64, 68, 73, 77, 81, 86, 91, 97, 102, 109, 115, 122, 129, 137, 145, 154, 163,
        172, 183, 193, 205, 217, 230, 244, 258, 274, 290, 307, 325, 345, 365, 387, 410, 434,
        460, 487, 516, 547, 580, 614, 651, 689, 730, 774, 820, 869, 920, 974, 1031, 1093, 1158,
        1227, 1299, 1379, 1460, 1547, 1639,
    ],
    [
        54, 57, 61, 64, 68, 72, 76, 81, 86, 90, 96, 102, 108, 114, 121, 128, 136, 144, 152, 161,
        171, 181, 192, 204, 216, 228, 242, 256, 272, 288, 305, 323, 342, 363, 384, 407, 431,
        457, 484, 513, 543, 575, 610, 646, 684, 725, 768, 814, 862, 914, 967, 1024, 1085, 1149,
        1218, 1290, 1369, 1450, 1536, 1628,
    ],
    [
        60, 64, 68, 71, 75, 81, 85, 90, 95, 101, 107, 113, 120, 127, 135, 143, 151, 160, 170,
        180, 190, 202, 214, 226, 240, 254, 269, 285, 302, 320, 339, 360, 381, 404, 428, 453,
        480, 508, 538, 570, 604, 640, 678, 720, 762, 808, 856, 907, 961, 1018, 1077, 1141, 1209,
        1281, 1357, 1438, 1526, 1616, 1712, 1814,
    ],
    [
        60, 63, 67, 70, 75, 80, 84, 89, 95, 100, 106, 113, 119, 126, 134, 142, 150, 159, 169,
        179, 189, 200, 212, 225, 238, 253, 268, 284, 300, 318, 337, 357, 379, 401, 425, 450,
        477, 505, 535, 567, 601, 636, 675, 715, 757, 802, 850, 900, 954, 1011, 1070, 1133, 1200,
        1272, 1347, 1427, 1515, 1604, 1700, 1801,
    ],
    [
        60, 63, 67, 70, 74, 79, 84, 89, 94, 99, 105, 112, 118, 125, 133, 141, 149, 158, 167,
        177, 188, 199, 211, 223, 237, 251, 266, 282, 298, 316, 335, 355, 376, 398, 422, 447,
        474, 502, 532, 563, 597, 632, 670, 709, 752, 796, 844, 894, 947, 1004, 1062, 1125, 1192,
        1263, 1338, 1417, 1504, 1593, 1688, 1788,
    ],
    [
        59, 62, 66, 69, 74, 79, 83, 88, 93, 98, 105, 111, 118, 125, 132, 140, 148, 157, 166,
        176, 187, 198, 209, 222, 235, 249, 264, 280, 296, 314, 332, 352, 373, 395, 419, 444,
        470, 498, 528, 559, 592, 628, 665, 704, 746, 791, 838, 887, 940, 996, 1054, 1117, 1183,
        1253, 1328, 1407, 1493, 1581, 1675, 1775,
    ],
    [
        59, 62, 66, 69, 73, 78, 82, 87, 93, 98, 104, 110, 117, 123, 131, 139, 147, 156, 165,
        175, 185, 196, 208, 220, 233, 247, 262, 278, 294, 312, 330, 350, 370, 392, 416, 441,
        467, 494, 524, 555, 588, 623, 660, 699, 741, 785, 832, 881, 934, 989, 1047, 1109, 1174,
        1244, 1319, 1397, 1482, 1570, 1663, 1762,
    ],
    [
        58, 61, 65, 68, 73, 78, 82, 87, 92, 97, 103, 109, 116, 123, 130, 138, 146, 155, 164,
        174, 184, 195, 206, 219, 232, 245, 260, 276, 292, 309, 328, 347, 368, 390, 413, 437,
        463, 491, 520, 551, 584, 619, 655, 694, 736, 779, 826, 875, 927, 982, 1039, 1101, 1166,
        1235, 1309, 1387, 1472, 1558, 1651, 1749,
    ],
    [
        58, 61, 65, 68, 72, 77, 81, 86, 91, 96, 102, 109, 115, 122, 129, 137, 145, 154, 163,
        172, 183, 193, 205, 217, 230, 244, 258, 274, 290, 307, 325, 345, 365, 387, 410, 434,
        460, 487, 516, 547, 580, 614, 651, 689, 730, 774, 820, 868, 920, 975, 1032, 1093, 1158,
        1227, 1300, 1377, 1461, 1547, 1640, 1737,
    ],
    [
        57, 60, 64, 67, 72, 77, 81, 86, 91, 96, 102, 108, 114, 121, 128, 136, 144, 152, 161,
        171, 181, 192, 203, 216, 228, 242, 256, 272, 288, 305, 323, 342, 363, 384, 407, 431,
        457, 484, 513, 543, 575, 610, 646, 684, 725, 768, 814, 862, 914, 968, 1024, 1085, 1149,
        1218, 1290, 1367, 1450, 1536, 1628, 1724,
    ],
];

/// The factor by which a period outside the table is scaled for each fine-tune
/// setting, as a multiple of 1/65536.
pub const SCALE_FINE_TUNE: [u32; 16] = [
    65536, 65065, 64596, 64132, 63670, 63212, 62757, 62306, 69433, 68933, 68438, 67945, 67456,
    66971, 66489, 66011,
];

/// One cycle of the sine wave that drives vibrato and tremolo, in the range
/// -255 to 255.
pub const VIBRATO_TABLE: [i32; 64] = [
    0, 24, 49, 74, 97, 120, 141, 161, 180, 197, 212, 224, 235, 244, 250, 253, 255, 253, 250,
    244, 235, 224, 212, 197, 180, 161, 141, 120, 97, 74, 49, 24, 0, -24, -49, -74, -97, -120,
    -141, -161, -180, -197, -212, -224, -235, -244, -250, -253, -255, -253, -250, -244, -235,
    -224, -212, -197, -180, -161, -141, -120, -97, -74, -49, -24,
];

} // verus!
